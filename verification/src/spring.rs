//! A spring between an anchor and an object.

use vstd::prelude::*;
use crate::fixed;
use crate::object::{law_zero_force, Object};
use crate::vector::Vector;

verus! {

/// A spring fixed at `anchor`, with stiffness `k` and the length at which it
/// exerts no force.
#[derive(Clone, Copy, Debug, PartialEq, Eq, Structural)]
pub struct Spring {
    k: i64,
    rest_length: i64,
    anchor: Vector,
}

/// The force of a spring of stiffness `k` and length `rest_length` at rest,
/// fixed at `anchor`, on a body at `position`: minus the stiffness, times the
/// stretch beyond the rest length, times the direction from the anchor to the
/// body. A body on the anchor has no direction and feels no force.
pub open spec fn spring_force(k: i64, rest_length: i64, anchor: Vector, position: Vector) -> Vector {
    let displacement = position.minus(anchor);
    let stretch = fixed::minus(displacement.length(), rest_length);
    let direction = displacement.normalized();
    direction.scaled(fixed::times(fixed::negate(k), stretch))
}

impl Spring {
    /// The stiffness.
    pub closed spec fn stiffness(self) -> i64 {
        self.k
    }

    /// The length at which the spring exerts no force.
    pub closed spec fn length_at_rest(self) -> i64 {
        self.rest_length
    }

    /// The point at which the spring is fixed.
    pub closed spec fn fixed_at(self) -> Vector {
        self.anchor
    }

    /// The force of this spring on a body at `position`.
    pub open spec fn spec_force_at(&self, position: Vector) -> Vector {
        spring_force(self.stiffness(), self.length_at_rest(), self.fixed_at(), position)
    }

    /// Builds a spring from its stiffness, its rest length and its anchor.
    pub fn new(k: i64, rest_length: i64, anchor: Vector) -> (r: Spring)
        ensures
            r.stiffness() == k,
            r.length_at_rest() == rest_length,
            r.fixed_at() == anchor,
    {
        Spring { k, rest_length, anchor }
    }

    /// The force of this spring on a body at `position`.
    #[verifier::when_used_as_spec(spec_force_at)]
    pub fn force_at(&self, position: Vector) -> (force: Vector)
        ensures
            force == self.spec_force_at(position),
    {
        let displacement: Vector = position.minus(self.anchor);
        let displacement_length: i64 = displacement.length();
        let stretch: i64 = fixed::minus(displacement_length, self.rest_length);
        let direction: Vector = displacement.normalized();
        direction.scaled(fixed::times(fixed::negate(self.k), stretch))
    }

    /// Adds the force of this spring on `object` to the object's accumulator.
    pub fn apply_force(&mut self, object: &mut Object)
        requires
            old(object).wf(),
        ensures
            *final(self) == *old(self),
            *final(object) == old(object).accelerated(old(self).force_at(old(object).position)),
            final(object).wf(),
    {
        let force: Vector = self.force_at(object.position);
        object.apply_force(force);
    }
}

/// Restoring force: a spring of positive stiffness that is stretched beyond
/// its rest length pulls a body that is off the anchor toward the anchor. The
/// force is not zero; each of its components is opposite in sign to the same
/// component of the displacement from the anchor, and zero where that is zero.
/// The same holds of the acceleration that the force gives the body.
pub proof fn law_spring_restores(k: i64, rest_length: i64, anchor: Vector, object: Object)
    requires
        k > 0,
        object.wf(),
        object.position != anchor,
        fixed::minus(object.position.minus(anchor).length(), rest_length) > 0,
    ensures
        ({
            let d = object.position.minus(anchor);
            let f = spring_force(k, rest_length, anchor, object.position);
            let a = f.divided(object.mass);
            &&& d.x > 0 ==> f.x < 0 && a.x < 0
            &&& d.x < 0 ==> f.x > 0 && a.x > 0
            &&& d.x == 0 ==> f.x == 0 && a.x == 0
            &&& d.y > 0 ==> f.y < 0 && a.y < 0
            &&& d.y < 0 ==> f.y > 0 && a.y > 0
            &&& d.y == 0 ==> f.y == 0 && a.y == 0
            &&& f != Vector::zero()
            &&& f.x * d.x + f.y * d.y < 0
            &&& a.x * d.x + a.y * d.y < 0
            &&& object.acceleration == Vector::zero() ==> object.accelerated(f).acceleration == a
        }),
{
    let d = object.position.minus(anchor);
    let len = d.length();
    let stretch = fixed::minus(len, rest_length);
    let pull = fixed::times(fixed::negate(k), stretch);
    let dir = d.normalized();
    let f = spring_force(k, rest_length, anchor, object.position);
    let a = f.divided(object.mass);
    assert(f == dir.scaled(pull));
    assert(d != Vector::zero());
    fixed::lemma_hypot(d.x, d.y);
    assert(len > 0);
    lemma_sign_of_product(fixed::negate(k) as int, stretch as int);
    fixed::law_quot_is_close(fixed::negate(k) * stretch, fixed::UNIT as int);
    assert(pull < 0);
    lemma_direction_component(d.x, len);
    lemma_direction_component(d.y, len);
    lemma_pulled_component(dir.x, pull, object.mass);
    lemma_pulled_component(dir.y, pull, object.mass);
    lemma_sign_of_product(f.x as int, d.x as int);
    lemma_sign_of_product(f.y as int, d.y as int);
    lemma_sign_of_product(a.x as int, d.x as int);
    lemma_sign_of_product(a.y as int, d.y as int);
}

/// A component of the direction has the sign of the same component of the
/// vector.
proof fn lemma_direction_component(c: i64, len: i64)
    requires
        len > 0,
    ensures
        c > 0 ==> fixed::over(c, len) > 0,
        c < 0 ==> fixed::over(c, len) < 0,
        c == 0 ==> fixed::over(c, len) == 0,
{
    lemma_sign_of_product(c as int, fixed::UNIT as int);
    fixed::law_quot_is_close(c * fixed::UNIT, len as int);
}

/// A component of a direction under a pull toward the anchor gives a force,
/// and the force an acceleration, of the opposite sign.
proof fn lemma_pulled_component(dir: i64, pull: i64, mass: i64)
    requires
        pull < 0,
        mass > 0,
    ensures
        dir > 0 ==> fixed::times(dir, pull) < 0 && fixed::over(fixed::times(dir, pull), mass) < 0,
        dir < 0 ==> fixed::times(dir, pull) > 0 && fixed::over(fixed::times(dir, pull), mass) > 0,
        dir == 0 ==> fixed::times(dir, pull) == 0 && fixed::over(fixed::times(dir, pull), mass)
            == 0,
{
    lemma_sign_of_product(dir as int, pull as int);
    fixed::law_quot_is_close(dir * pull, fixed::UNIT as int);
    let force = fixed::times(dir, pull);
    lemma_sign_of_product(force as int, fixed::UNIT as int);
    fixed::law_quot_is_close(force * fixed::UNIT, mass as int);
}

/// At rest length: a body whose distance from the anchor is the rest length
/// feels no force from the spring, so applying the spring's force leaves it as
/// it was.
pub proof fn law_no_force_at_rest_length(
    k: i64,
    rest_length: i64,
    anchor: Vector,
    object: Object,
)
    requires
        object.wf(),
        object.position.minus(anchor).length() == rest_length,
    ensures
        spring_force(k, rest_length, anchor, object.position) == Vector::zero(),
        object.accelerated(spring_force(k, rest_length, anchor, object.position)) == object,
{
    let d = object.position.minus(anchor);
    let dir = d.normalized();
    assert(fixed::negate(k) * 0 == 0);
    assert(dir.x * 0 == 0);
    assert(dir.y * 0 == 0);
    law_zero_force(object);
}

/// On the anchor: a body that sits on the anchor feels no force from the
/// spring, whatever the stiffness and the rest length, so applying the
/// spring's force leaves it as it was.
pub proof fn law_no_force_on_anchor(k: i64, rest_length: i64, object: Object)
    requires
        object.wf(),
    ensures
        spring_force(k, rest_length, object.position, object.position) == Vector::zero(),
        object.accelerated(spring_force(k, rest_length, object.position, object.position))
            == object,
{
    fixed::lemma_hypot(0, 0);
    let pull = fixed::times(
        fixed::negate(k),
        fixed::minus(object.position.minus(object.position).length(), rest_length),
    );
    assert(0 * pull == 0);
    law_zero_force(object);
}

/// A product has the sign that the signs of its factors give it.
proof fn lemma_sign_of_product(a: int, b: int)
    by (nonlinear_arith)
    ensures
        a > 0 && b > 0 ==> a * b > 0,
        a < 0 && b < 0 ==> a * b > 0,
        a > 0 && b < 0 ==> a * b < 0,
        a < 0 && b > 0 ==> a * b < 0,
        a == 0 || b == 0 ==> a * b == 0,
{
}

} // verus!
