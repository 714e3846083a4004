//! The whole scene: the tunable settings and the objects on the spring.

use vstd::prelude::*;
use crate::fixed::UNIT;
use crate::object::Object;
use crate::settings::{Control, Settings};
use crate::spring::{spring_force, Spring};
use crate::vector::Vector;

verus! {

/// The state that one frame reads and the next frame finds.
pub struct Simulation {
    pub settings: Settings,
    pub objects: Vec<Object>,
}

/// One object after one frame: the spring made from `settings` at `anchor`
/// pulls on it, then it takes one step.
pub open spec fn frame_step(object: Object, settings: Settings, anchor: Vector) -> Object {
    object.accelerated(
        spring_force(settings.stiffness, settings.rest_length, anchor, object.position),
    ).stepped()
}

impl Simulation {
    /// Every object is well formed.
    pub open spec fn wf(self) -> bool {
        forall|i: int| 0 <= i < self.objects@.len() ==> (#[trigger] self.objects@[i]).wf()
    }

    /// The scene at start: the settings at start, and one object of mass one
    /// at rest at the origin.
    pub fn new() -> (r: Simulation)
        ensures
            r.settings == Settings::new(),
            r.objects@ == seq![
                (Object {
                    position: Vector::zero(),
                    velocity: Vector::zero(),
                    acceleration: Vector::zero(),
                    mass: UNIT,
                }),
            ],
            r.wf(),
    {
        let object: Object = Object::new(Vector::zero(), Vector::zero(), Vector::zero(), UNIT);
        let mut objects: Vec<Object> = Vec::new();
        objects.push(object);
        Simulation { settings: Settings::new(), objects }
    }

    /// Applies one control to the settings and leaves the objects alone.
    pub fn handle(&mut self, control: Control)
        ensures
            final(self).settings == old(self).settings.adjusted(control),
            final(self).objects == old(self).objects,
            old(self).settings.wf() ==> final(self).settings.wf(),
    {
        self.settings.adjust(control);
    }

    /// Advances the scene by one frame with the spring fixed at `anchor`:
    /// every object feels its own spring force and takes one step.
    pub fn step(&mut self, anchor: Vector)
        requires
            old(self).wf(),
        ensures
            final(self).wf(),
            final(self).settings == old(self).settings,
            final(self).objects@.len() == old(self).objects@.len(),
            forall|i: int|
                0 <= i < old(self).objects@.len() ==> #[trigger] final(self).objects@[i]
                    == frame_step(old(self).objects@[i], old(self).settings, anchor),
    {
        let count: usize = self.objects.len();
        let mut i: usize = 0;
        while i < count
            invariant
                i <= count,
                count == self.objects@.len(),
                count == old(self).objects@.len(),
                self.settings == old(self).settings,
                forall|j: int|
                    0 <= j < i ==> #[trigger] self.objects@[j] == frame_step(
                        old(self).objects@[j],
                        old(self).settings,
                        anchor,
                    ),
                forall|j: int| i <= j < count ==> #[trigger] self.objects@[j] == old(self).objects@[j],
                forall|j: int| 0 <= j < count ==> (#[trigger] self.objects@[j]).wf(),
            decreases count - i,
        {
            let mut spring: Spring = self.settings.spring(anchor);
            let mut object: Object = self.objects[i];
            spring.apply_force(&mut object);
            object.update();
            self.objects.set(i, object);
            i = i + 1;
        }
    }
}

} // verus!
