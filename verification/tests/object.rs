use spring_sim::fixed::UNIT;
use spring_sim::object::{
    weight, Object, DAMPING, GRAVITY_X, GRAVITY_Y, MASS_MAX, SCALE, STEPS_PER_SECOND,
    TERMINAL_VELOCITY,
};
use spring_sim::vector::Vector;

fn at_rest(mass: i64) -> Object {
    Object::new(Vector::zero(), Vector::zero(), Vector::zero(), mass)
}

#[test]
fn constants() {
    assert_eq!(DAMPING, 950_000);
    assert_eq!(STEPS_PER_SECOND, 60);
    assert_eq!(GRAVITY_X, 0);
    assert_eq!(GRAVITY_Y, -9_800_000);
    assert_eq!(SCALE, 100 * UNIT);
    assert_eq!(MASS_MAX, i64::MAX / 980);
    assert_eq!(TERMINAL_VELOCITY, -310_333_307);
}

#[test]
fn validity_is_a_mass_within_its_bounds() {
    let mut o = at_rest(UNIT);
    assert!(o.is_valid());
    o.mass = MASS_MAX;
    assert!(o.is_valid());
    o.mass = MASS_MAX + 1;
    assert!(!o.is_valid());
    o.mass = 0;
    assert!(!o.is_valid());
    o.mass = -UNIT;
    assert!(!o.is_valid());
    o.mass = 1;
    assert!(o.is_valid());
}

#[test]
fn new_keeps_its_arguments() {
    let o = Object::new(Vector::new(1, 2), Vector::new(3, 4), Vector::new(5, 6), 7);
    assert_eq!(o.position, Vector::new(1, 2));
    assert_eq!(o.velocity, Vector::new(3, 4));
    assert_eq!(o.acceleration, Vector::new(5, 6));
    assert_eq!(o.mass, 7);
}

#[test]
fn weight_is_980_times_the_mass() {
    assert_eq!(weight(UNIT), Vector::new(0, -980 * UNIT));
    assert_eq!(weight(3 * UNIT), Vector::new(0, -2_940 * UNIT));
    assert_eq!(weight(1), Vector::new(0, -980));
    assert_eq!(weight(MASS_MAX), Vector::new(0, -980 * MASS_MAX));
}

#[test]
fn apply_force_adds_force_over_mass() {
    let mut o = Object::new(
        Vector::zero(),
        Vector::zero(),
        Vector::new(UNIT, 2 * UNIT),
        2 * UNIT,
    );
    o.apply_force(Vector::new(3 * UNIT, -5 * UNIT));
    assert_eq!(o.acceleration, Vector::new(2_500_000, -500_000));
    assert_eq!(o.position, Vector::zero());
    assert_eq!(o.velocity, Vector::zero());
    assert_eq!(o.mass, 2 * UNIT);
}

#[test]
fn apply_force_accumulates() {
    let mut o = at_rest(UNIT);
    o.apply_force(Vector::new(UNIT, 0));
    o.apply_force(Vector::new(UNIT, -UNIT));
    o.apply_force(Vector::new(0, -UNIT));
    assert_eq!(o.acceleration, Vector::new(2 * UNIT, -2 * UNIT));
}

#[test]
fn zero_force_changes_nothing() {
    let before = Object::new(Vector::new(1, 2), Vector::new(3, 4), Vector::new(5, 6), 7);
    let mut o = before;
    o.apply_force(Vector::zero());
    assert_eq!(o, before);
}

#[test]
fn gravity_only_step_from_rest() {
    let mut o = at_rest(UNIT);
    o.update();
    assert_eq!(o.velocity, Vector::new(0, -15_516_666));
    assert_eq!(o.position, Vector::new(0, -258_611));
    assert_eq!(o.acceleration, Vector::zero());
    assert_eq!(o.mass, UNIT);
}

#[test]
fn gravity_does_not_depend_on_the_mass() {
    for mass in [1, 7, 2_500_000, 9_000_000_000 * UNIT, MASS_MAX] {
        let mut o = at_rest(mass);
        o.update();
        assert_eq!(o.velocity, Vector::new(0, -15_516_666));
        assert_eq!(o.position, Vector::new(0, -258_611));
        assert_eq!(o.mass, mass);
    }
}

#[test]
fn gravity_lowers_the_velocity_of_the_heaviest_object() {
    let mut o = Object::new(Vector::zero(), Vector::new(0, -300 * UNIT), Vector::zero(), MASS_MAX);
    o.update();
    assert_eq!(o.velocity, Vector::new(0, -300_516_666));
    assert_eq!(o.position, Vector::new(0, -5_008_611));
}

#[test]
fn gravity_only_lowers_the_vertical_velocity() {
    for mass in [1, UNIT, MASS_MAX] {
        for vy in [i64::MAX, 50 * UNIT, 16_333_334, 16_333_333, 0, -UNIT, -300 * UNIT, TERMINAL_VELOCITY] {
            let mut o = Object::new(Vector::zero(), Vector::new(0, vy), Vector::zero(), mass);
            o.update();
            assert!(o.velocity.y < vy);
            assert_eq!(o.velocity.x, 0);
        }
    }
}

#[test]
fn gravity_only_at_terminal_velocity() {
    let mut o =
        Object::new(Vector::zero(), Vector::new(0, TERMINAL_VELOCITY - 1), Vector::zero(), UNIT);
    o.update();
    assert_eq!(o.velocity.y, TERMINAL_VELOCITY - 1);
    let mut faster = Object::new(Vector::zero(), Vector::new(0, -400 * UNIT), Vector::zero(), UNIT);
    faster.update();
    assert!(faster.velocity.y > -400 * UNIT);
}

#[test]
fn update_clears_the_accumulator() {
    let mut o = Object::new(
        Vector::zero(),
        Vector::zero(),
        Vector::new(77 * UNIT, -3 * UNIT),
        UNIT,
    );
    o.update();
    assert_eq!(o.acceleration, Vector::zero());
}

#[test]
fn update_damps_after_the_force_and_before_the_move() {
    let mut o = Object::new(
        Vector::new(5 * UNIT, 7 * UNIT),
        Vector::new(100 * UNIT, -40 * UNIT),
        Vector::new(0, 980 * UNIT),
        UNIT,
    );
    o.update();
    assert_eq!(o.velocity, Vector::new(95 * UNIT, -38 * UNIT));
    assert_eq!(o.position, Vector::new(6_583_333, 6_366_667));
}

#[test]
fn zero_net_force_only_damps() {
    let mut o = Object::new(Vector::zero(), Vector::new(100 * UNIT, -40 * UNIT), Vector::zero(), UNIT);
    let mut last = o.velocity;
    let expected = [
        Vector::new(95_000_000, -38_000_000),
        Vector::new(90_250_000, -36_100_000),
        Vector::new(85_737_500, -34_295_000),
        Vector::new(81_450_625, -32_580_250),
    ];
    for want in expected {
        o.apply_force(weight(o.mass).negated());
        o.update();
        assert_eq!(o.velocity, want);
        assert!(o.velocity.x.abs() < last.x.abs());
        assert!(o.velocity.y.abs() < last.y.abs());
        last = o.velocity;
    }
}

#[test]
fn damping_keeps_a_single_raw_step() {
    let mut o = Object::new(
        Vector::new(5 * UNIT, 7 * UNIT),
        Vector::new(1, -1),
        Vector::new(0, 980 * UNIT),
        UNIT,
    );
    o.update();
    assert_eq!(o.velocity, Vector::new(1, -1));
    assert_eq!(o.position, Vector::new(5 * UNIT + 1, 7 * UNIT - 1));
    let mut p = Object::new(Vector::zero(), Vector::new(2, 0), Vector::new(0, 980 * UNIT), UNIT);
    p.update();
    assert_eq!(p.velocity, Vector::new(1, 0));
}

#[test]
fn damping_never_stops_a_moving_object() {
    let mut o = Object::new(Vector::zero(), Vector::new(1_000 * UNIT, -3), Vector::zero(), UNIT);
    let mut steps = 0;
    while o.velocity.x > 1 {
        let before = o.velocity;
        o.apply_force(weight(o.mass).negated());
        o.update();
        assert!(o.velocity.x < before.x);
        assert!(o.velocity.x > 0);
        assert!(20 * o.velocity.x <= 19 * before.x);
        assert!(o.velocity.y < 0 && o.velocity.y >= before.y);
        steps += 1;
        assert!(steps < 1_000);
    }
    assert_eq!(steps, 356);
    for _ in 0..1_000 {
        o.apply_force(weight(o.mass).negated());
        o.update();
        assert_eq!(o.velocity, Vector::new(1, -1));
    }
}

#[test]
fn update_saturates_at_the_extremes() {
    let far = Vector::new(i64::MAX, i64::MIN);
    let mut o = Object::new(far, far, far, 1);
    o.update();
    assert_eq!(o.position, far);
    assert_eq!(o.velocity, Vector::new(8_762_203_435_012_037_016, -8_762_203_435_012_037_017));
    assert_eq!(o.acceleration, Vector::zero());
    let mut heavy = Object::new(far, far, Vector::zero(), MASS_MAX);
    heavy.update();
    assert_eq!(heavy.position, far);
    assert_eq!(heavy.velocity, Vector::new(8_762_203_435_012_037_016, -8_762_203_435_012_037_017));
    assert_eq!(heavy.acceleration, Vector::zero());
    assert_eq!(heavy.mass, MASS_MAX);
}
