use spring_sim::fixed::UNIT;
use spring_sim::object::Object;
use spring_sim::settings::{Control, Settings};
use spring_sim::simulation::Simulation;
use spring_sim::vector::Vector;

#[test]
fn scene_at_start() {
    let sim = Simulation::new();
    assert_eq!(sim.settings, Settings { stiffness: 4 * UNIT, rest_length: 50 * UNIT });
    assert_eq!(sim.objects.len(), 1);
    assert_eq!(sim.objects[0], Object::new(Vector::zero(), Vector::zero(), Vector::zero(), UNIT));
}

#[test]
fn handle_changes_only_the_settings() {
    let mut sim = Simulation::new();
    sim.handle(Control::Stiffen);
    sim.handle(Control::Shorten);
    assert_eq!(sim.settings, Settings { stiffness: 5 * UNIT, rest_length: 40 * UNIT });
    assert_eq!(sim.objects, Simulation::new().objects);
}

#[test]
fn one_frame_of_the_scene_at_start() {
    let mut sim = Simulation::new();
    sim.step(Vector::new(0, 100 * UNIT));
    assert_eq!(sim.objects.len(), 1);
    assert_eq!(sim.objects[0].velocity, Vector::new(0, -12_350_000));
    assert_eq!(sim.objects[0].position, Vector::new(0, -205_833));
    assert_eq!(sim.objects[0].acceleration, Vector::zero());
    assert_eq!(sim.settings, Settings::new());
}

#[test]
fn four_frames_of_the_scene_at_start() {
    let mut sim = Simulation::new();
    let expected = [
        (Vector::new(0, -205_833), Vector::new(0, -12_350_000)),
        (Vector::new(0, -606_990), Vector::new(0, -24_069_463)),
        (Vector::new(0, -1_193_282), Vector::new(0, -35_177_547)),
        (Vector::new(0, -1_954_833), Vector::new(0, -45_693_094)),
    ];
    for (position, velocity) in expected {
        sim.step(Vector::new(0, 100 * UNIT));
        assert_eq!(sim.objects[0].position, position);
        assert_eq!(sim.objects[0].velocity, velocity);
    }
}

#[test]
fn every_object_feels_its_own_force() {
    let mut sim = Simulation::new();
    sim.objects.push(Object::new(Vector::new(0, 100 * UNIT), Vector::zero(), Vector::zero(), UNIT));
    sim.objects.push(Object::new(
        Vector::new(300 * UNIT, 500 * UNIT),
        Vector::zero(),
        Vector::zero(),
        2 * UNIT,
    ));
    sim.step(Vector::new(0, 100 * UNIT));
    assert_eq!(sim.objects.len(), 3);
    assert_eq!(sim.objects[0].velocity, Vector::new(0, -12_350_000));
    assert_eq!(sim.objects[1].velocity, Vector::new(0, -15_516_666));
    assert_eq!(sim.objects[2].velocity, Vector::new(-8_550_000, -26_916_666));
    assert_eq!(sim.objects[2].mass, 2 * UNIT);
}

#[test]
fn an_empty_scene_steps() {
    let mut sim = Simulation::new();
    sim.objects.clear();
    sim.step(Vector::new(5, 5));
    assert!(sim.objects.is_empty());
    assert_eq!(sim.settings, Settings::new());
}

#[test]
fn settings_take_effect_in_the_next_frame() {
    let mut sim = Simulation::new();
    sim.handle(Control::Stiffen);
    sim.handle(Control::Lengthen);
    sim.step(Vector::new(0, 100 * UNIT));
    assert_eq!(sim.objects[0].velocity, Vector::new(0, -12_350_000));
    let mut other = Simulation::new();
    other.handle(Control::Soften);
    other.step(Vector::new(0, 100 * UNIT));
    assert_eq!(other.objects[0].velocity, Vector::new(0, -13_141_666));
}
