//! A point mass and its per-frame integration step.

use vstd::prelude::*;
use vstd::arithmetic::div_mod::lemma_div_multiples_vanish;
use vstd::arithmetic::power::{lemma_pow0, lemma_pow1, lemma_pow_adds, lemma_pow_positive, pow};
use vstd::math::abs;
use crate::fixed;
use crate::vector::Vector;

verus! {

/// Fraction of the velocity that survives one step: 0.95.
pub const DAMPING: i64 = 950_000;

/// Number of steps in one second of simulated time: one step lasts 1/60 s, so
/// multiplying by the time step is taking the sixtieth part.
pub const STEPS_PER_SECOND: i64 = 60;

/// Horizontal gravitational acceleration: 0.
pub const GRAVITY_X: i64 = 0;

/// Vertical gravitational acceleration: -9.8.
pub const GRAVITY_Y: i64 = -9_800_000;

/// Number of length units in one metre: 100.
pub const SCALE: i64 = 100_000_000;

/// Largest mass: the largest whose weight, 980 times the mass, an `i64` can
/// hold.
pub const MASS_MAX: i64 = 9_411_604_119_239_567;

/// A point mass. `acceleration` accumulates the forces applied since the last
/// step and is cleared by every step.
#[derive(Clone, Copy, Debug, PartialEq, Eq, Structural)]
pub struct Object {
    pub position: Vector,
    pub velocity: Vector,
    pub acceleration: Vector,
    pub mass: i64,
}

/// The force of gravity on a mass: gravity times the scale times the mass.
pub open spec fn spec_weight(mass: i64) -> Vector {
    (Vector { x: GRAVITY_X, y: GRAVITY_Y }).scaled(SCALE).scaled(mass)
}

/// The force of gravity on a mass.
#[verifier::when_used_as_spec(spec_weight)]
pub fn weight(mass: i64) -> (r: Vector)
    ensures
        r == spec_weight(mass),
{
    Vector::new(GRAVITY_X, GRAVITY_Y).scaled(SCALE).scaled(mass)
}

/// The change of the vertical velocity that gravity alone causes in one step.
pub open spec fn gravity_step(mass: i64) -> i64 {
    fixed::nth_part(fixed::over(weight(mass).y, mass), STEPS_PER_SECOND)
}

/// The vertical velocity below which gravity and damping together no longer
/// lower it: nineteen times the pull of one step, less the rounding.
pub const TERMINAL_VELOCITY: i64 = -310_333_307;

impl Object {
    /// An object is well formed when its mass is positive and no larger than
    /// the largest mass.
    pub open spec fn wf(self) -> bool {
        0 < self.mass <= MASS_MAX
    }

    /// The object after `force` has been added to its accumulator: the
    /// acceleration grows by the force divided by the mass.
    pub open spec fn accelerated(self, force: Vector) -> Object {
        Object {
            position: self.position,
            velocity: self.velocity,
            acceleration: self.acceleration.plus(force.divided(self.mass)),
            mass: self.mass,
        }
    }

    /// The object after one step: gravity joins the accumulated forces, the
    /// velocity takes up the acceleration over one time step and is damped,
    /// the position takes up the damped velocity over one time step, and the
    /// accumulator is cleared.
    pub open spec fn stepped(self) -> Object {
        let pulled = self.accelerated(weight(self.mass));
        let velocity = self.velocity.plus(pulled.acceleration.nth_part(STEPS_PER_SECOND)).scaled(
            DAMPING,
        );
        Object {
            position: self.position.plus(velocity.nth_part(STEPS_PER_SECOND)),
            velocity,
            acceleration: Vector::zero(),
            mass: self.mass,
        }
    }

    /// The object after the force that cancels its weight has been applied.
    pub open spec fn balanced(self) -> Object {
        self.accelerated(weight(self.mass).negated())
    }

    /// The object after `n` steps, before each of which the force that cancels
    /// its weight was applied.
    pub open spec fn coasted(self, n: nat) -> Object
        decreases n,
    {
        if n == 0 {
            self
        } else {
            self.coasted((n - 1) as nat).balanced().stepped()
        }
    }

    /// Builds an object from its state and its mass, which is positive and no
    /// larger than the largest mass.
    pub fn new(position: Vector, velocity: Vector, acceleration: Vector, mass: i64) -> (r: Object)
        requires
            0 < mass <= MASS_MAX,
        ensures
            r == (Object { position, velocity, acceleration, mass }),
            r.wf(),
    {
        Object { position, velocity, acceleration, mass }
    }

    /// Whether the object is well formed.
    pub fn is_valid(&self) -> (b: bool)
        ensures
            b == self.wf(),
    {
        0 < self.mass && self.mass <= MASS_MAX
    }

    /// Adds `force / mass` to the acceleration accumulator.
    pub fn apply_force(&mut self, force: Vector)
        requires
            old(self).wf(),
        ensures
            *final(self) == old(self).accelerated(force),
            final(self).wf(),
    {
        self.acceleration = self.acceleration.plus(force.divided(self.mass));
    }

    /// Advances the object by one step of 1/60 s.
    pub fn update(&mut self)
        requires
            old(self).wf(),
        ensures
            *final(self) == old(self).stepped(),
            final(self).wf(),
    {
        let gravity_force: Vector = weight(self.mass);
        self.apply_force(gravity_force);

        self.velocity = self.velocity.plus(self.acceleration.nth_part(STEPS_PER_SECOND));
        self.velocity = self.velocity.scaled(DAMPING);
        self.position = self.position.plus(self.velocity.nth_part(STEPS_PER_SECOND));

        self.acceleration = Vector::zero();
    }
}

/// The velocity `v` after `n` steps in which nothing but damping acts on it.
pub open spec fn damped(v: Vector, n: nat) -> Vector
    decreases n,
{
    if n == 0 {
        v
    } else {
        damped(v, (n - 1) as nat).scaled(DAMPING)
    }
}

/// Gravity pulls straight down with 980 times the mass.
pub proof fn lemma_weight(mass: i64)
    requires
        0 < mass <= MASS_MAX,
    ensures
        weight(mass) == (Vector { x: 0, y: (-980 * mass) as i64 }),
        weight(mass).negated() == (Vector { x: 0, y: (980 * mass) as i64 }),
{
    let base = (Vector { x: GRAVITY_X, y: GRAVITY_Y }).scaled(SCALE);
    assert(GRAVITY_X * SCALE == 0);
    assert(GRAVITY_Y * SCALE == -980_000_000_000_000) by (nonlinear_arith)
        requires
            GRAVITY_Y == -9_800_000,
            SCALE == 100_000_000,
    ;
    assert(base.x == 0);
    assert(base.y == -980_000_000);
    assert(base.x * mass == 0);
    assert(base.y * mass == -980_000_000 * mass);
}

/// A whole multiple of the mass divided by the mass is that multiple.
proof fn lemma_multiple_over_mass(k: int, mass: i64)
    requires
        mass > 0,
        0 < k <= 1_000,
        k * mass <= i64::MAX,
    ensures
        fixed::over((k * mass) as i64, mass) == k * fixed::UNIT,
        fixed::over((-k * mass) as i64, mass) == -k * fixed::UNIT,
        fixed::over(0, mass) == 0,
{
    let m = mass as int;
    assert((k * m) * fixed::UNIT == m * (k * fixed::UNIT)) by (nonlinear_arith);
    assert((-k * m) * fixed::UNIT == -(m * (k * fixed::UNIT))) by (nonlinear_arith);
    assert(m * (k * fixed::UNIT) >= m) by (nonlinear_arith)
        requires
            m > 0,
            k > 0,
            fixed::UNIT == 1_000_000,
    ;
    lemma_div_multiples_vanish(k * fixed::UNIT, m);
    assert(0 * fixed::UNIT == 0);
}

/// The acceleration of gravity is 980 downward for every mass, and changes
/// the vertical velocity by 980/60 in one step.
pub proof fn lemma_gravity_acceleration(mass: i64)
    requires
        0 < mass <= MASS_MAX,
    ensures
        weight(mass).divided(mass) == (Vector { x: 0, y: (-980_000_000i64) }),
        weight(mass).negated().divided(mass) == (Vector { x: 0, y: 980_000_000 }),
        gravity_step(mass) == -16_333_333,
{
    lemma_weight(mass);
    lemma_multiple_over_mass(980, mass);
}

/// No force, no change: applying the zero force leaves an object as it was.
pub proof fn law_zero_force(o: Object)
    requires
        o.wf(),
    ensures
        o.accelerated(Vector::zero()) == o,
{
    assert(0 * fixed::UNIT == 0);
}

/// Damping multiplies by 19/20.
pub proof fn lemma_damping(v: i64)
    ensures
        fixed::times(v, DAMPING) == fixed::quot(19 * v, 20),
{
}

/// Gravity alone: when no force has been applied since the last step, a step
/// leaves the damped horizontal velocity, and adds the pull of gravity, 980/60
/// downward for every mass, to the vertical velocity before it damps it. The
/// vertical velocity decreases exactly when it is not below the terminal
/// velocity.
pub proof fn law_gravity_only(o: Object)
    requires
        o.wf(),
        o.acceleration == Vector::zero(),
    ensures
        gravity_step(o.mass) == -16_333_333,
        o.stepped().velocity.x == fixed::times(o.velocity.x, DAMPING),
        o.stepped().velocity.y == fixed::times(
            fixed::plus(o.velocity.y, gravity_step(o.mass)),
            DAMPING,
        ),
        o.stepped().velocity.y < o.velocity.y <==> o.velocity.y >= TERMINAL_VELOCITY,
{
    lemma_gravity_acceleration(o.mass);
    let g = gravity_step(o.mass);
    let w = fixed::plus(o.velocity.y, g);
    lemma_damping(w);
    lemma_damping(o.velocity.x);
}

/// Zero net force: when the forces applied since the last step cancel gravity,
/// a step only damps the velocity and moves the object by the damped velocity
/// over one time step. A component of the velocity that is not zero stays not
/// zero and keeps its sign, so a moving object never stops; the velocity gets
/// no longer, and strictly shorter where a component has at least two raw
/// steps.
pub proof fn law_zero_net_force(o: Object)
    requires
        o.wf(),
        o.accelerated(weight(o.mass)).acceleration == Vector::zero(),
    ensures
        o.stepped().velocity == o.velocity.scaled(DAMPING),
        o.stepped().position == o.position.plus(
            o.velocity.scaled(DAMPING).nth_part(STEPS_PER_SECOND),
        ),
        o.stepped().acceleration == Vector::zero(),
        o.stepped().mass == o.mass,
        o.velocity.x > 0 ==> 0 < o.stepped().velocity.x <= o.velocity.x,
        o.velocity.x < 0 ==> o.velocity.x <= o.stepped().velocity.x < 0,
        o.velocity.x == 0 ==> o.stepped().velocity.x == 0,
        o.velocity.y > 0 ==> 0 < o.stepped().velocity.y <= o.velocity.y,
        o.velocity.y < 0 ==> o.velocity.y <= o.stepped().velocity.y < 0,
        o.velocity.y == 0 ==> o.stepped().velocity.y == 0,
        o.stepped().velocity.norm_squared() <= o.velocity.norm_squared(),
        o.stepped().velocity.norm_squared() < o.velocity.norm_squared() <==> abs(
            o.velocity.x as int,
        ) >= 2 || abs(o.velocity.y as int) >= 2,
{
    assert(fixed::quot(0, STEPS_PER_SECOND as int) == 0);
    law_damping_of_a_component(o.velocity.x);
    law_damping_of_a_component(o.velocity.y);
    law_damping_shrinks(o.velocity);
}

/// Damping of one component: it keeps its sign and never becomes zero unless
/// it was zero; from two raw steps on it becomes strictly smaller and at most
/// 19/20 of what it was; a single raw step stays as it is.
pub proof fn law_damping_of_a_component(c: i64)
    ensures
        c > 0 ==> 0 < fixed::times(c, DAMPING) <= c,
        c < 0 ==> c <= fixed::times(c, DAMPING) < 0,
        c == 0 ==> fixed::times(c, DAMPING) == 0,
        abs(c as int) >= 2 ==> abs(fixed::times(c, DAMPING) as int) < abs(c as int),
        abs(c as int) >= 2 ==> 20 * abs(fixed::times(c, DAMPING) as int) <= 19 * abs(c as int),
        abs(c as int) <= 1 ==> fixed::times(c, DAMPING) == c,
{
    lemma_damping(c);
}

/// Damping shrinks and never stops: a damped velocity is zero only if the
/// velocity was zero, is never longer than the velocity, and is strictly
/// shorter exactly when a component of the velocity has at least two raw
/// steps.
pub proof fn law_damping_shrinks(v: Vector)
    ensures
        v.scaled(DAMPING) == Vector::zero() <==> v == Vector::zero(),
        v.scaled(DAMPING).norm_squared() <= v.norm_squared(),
        v.scaled(DAMPING).norm_squared() < v.norm_squared() <==> abs(v.x as int) >= 2 || abs(
            v.y as int,
        ) >= 2,
{
    law_damping_of_a_component(v.x);
    law_damping_of_a_component(v.y);
    let r = v.scaled(DAMPING);
    lemma_square_of_smaller(r.x as int, v.x as int);
    lemma_square_of_smaller(r.y as int, v.y as int);
}

/// The square grows with the magnitude.
proof fn lemma_square_of_smaller(r: int, v: int)
    by (nonlinear_arith)
    requires
        abs(r) <= abs(v),
    ensures
        r * r <= v * v,
        abs(r) < abs(v) ==> r * r < v * v,
{
}

/// Damping decays: after `n` dampings every component is at most (19/20)^n of
/// what it was, or has come down to a single raw step.
pub proof fn law_damping_decay(v: Vector, n: nat)
    ensures
        abs(damped(v, n).x as int) <= 1 || pow(20, n) * abs(damped(v, n).x as int) <= pow(19, n)
            * abs(v.x as int),
        abs(damped(v, n).y as int) <= 1 || pow(20, n) * abs(damped(v, n).y as int) <= pow(19, n)
            * abs(v.y as int),
    decreases n,
{
    if n == 0 {
        lemma_pow0(20);
        lemma_pow0(19);
    } else {
        let m = (n - 1) as nat;
        let u = damped(v, m);
        law_damping_decay(v, m);
        law_damping_of_a_component(u.x);
        law_damping_of_a_component(u.y);
        lemma_pow_adds(20, m, 1);
        lemma_pow_adds(19, m, 1);
        lemma_pow1(20);
        lemma_pow1(19);
        lemma_pow_positive(20, m);
        if abs(u.x as int) >= 2 {
            lemma_decay_step(
                pow(20, m),
                pow(19, m),
                abs(u.x as int),
                abs(damped(v, n).x as int),
                abs(v.x as int),
            );
        }
        if abs(u.y as int) >= 2 {
            lemma_decay_step(
                pow(20, m),
                pow(19, m),
                abs(u.y as int),
                abs(damped(v, n).y as int),
                abs(v.y as int),
            );
        }
    }
}

/// One more damping carries the bound of `law_damping_decay` one step on.
proof fn lemma_decay_step(p: int, q: int, before: nat, after: nat, start: nat)
    by (nonlinear_arith)
    requires
        p * before <= q * start,
        20 * after <= 19 * before,
        p >= 0,
    ensures
        (p * 20) * after <= (q * 19) * start,
{
}

/// Damping never stops a moving object: after any number of dampings every
/// component has kept its sign and is zero only if it was zero at the start,
/// so a velocity that is not zero never becomes zero. No component grows, and
/// each settles at a single raw step.
pub proof fn law_damping_never_stops(v: Vector, n: nat)
    ensures
        v.x > 0 ==> 0 < damped(v, n).x <= v.x,
        v.x < 0 ==> v.x <= damped(v, n).x < 0,
        v.x == 0 ==> damped(v, n).x == 0,
        v.y > 0 ==> 0 < damped(v, n).y <= v.y,
        v.y < 0 ==> v.y <= damped(v, n).y < 0,
        v.y == 0 ==> damped(v, n).y == 0,
        v != Vector::zero() ==> damped(v, n) != Vector::zero(),
        n <= abs(v.x as int) ==> abs(damped(v, n).x as int) <= vstd::math::max(
            1,
            abs(v.x as int) - n,
        ),
        n <= abs(v.y as int) ==> abs(damped(v, n).y as int) <= vstd::math::max(
            1,
            abs(v.y as int) - n,
        ),
        n >= abs(v.x as int) ==> abs(damped(v, n).x as int) <= 1,
        n >= abs(v.y as int) ==> abs(damped(v, n).y as int) <= 1,
    decreases n,
{
    if n > 0 {
        let u = damped(v, (n - 1) as nat);
        law_damping_never_stops(v, (n - 1) as nat);
        law_damping_of_a_component(u.x);
        law_damping_of_a_component(u.y);
    }
}

/// Coasting: an object on which before every step the force that cancels its
/// weight is applied keeps of its velocity what `n` dampings leave, and its
/// next step damps that once more. So its velocity shrinks from step to step
/// as `law_damping_shrinks` says, and never becomes zero unless it was zero.
pub proof fn law_coasting(o: Object, n: nat)
    requires
        o.wf(),
        o.acceleration == Vector::zero(),
    ensures
        o.coasted(n).velocity == damped(o.velocity, n),
        o.coasted(n).acceleration == Vector::zero(),
        o.coasted(n).mass == o.mass,
        o.coasted(n + 1).velocity == o.coasted(n).velocity.scaled(DAMPING),
        o.coasted(n + 1).position == o.coasted(n).position.plus(
            o.coasted(n + 1).velocity.nth_part(STEPS_PER_SECOND),
        ),
        o.velocity != Vector::zero() ==> o.coasted(n).velocity != Vector::zero(),
    decreases n,
{
    if n > 0 {
        law_coasting(o, (n - 1) as nat);
    }
    let now = o.coasted(n);
    lemma_gravity_acceleration(o.mass);
    assert(now.balanced().acceleration == (Vector { x: 0, y: 980_000_000 }));
    law_zero_net_force(now.balanced());
    assert(o.coasted(n + 1) == now.balanced().stepped());
    law_damping_never_stops(o.velocity, n);
}

} // verus!
