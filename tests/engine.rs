use arcade::engine::{accelerate, advance_clock, whole_cells};

#[test]
fn velocity_truncates_toward_zero() {
    assert_eq!(whole_cells(-20), -2);
    assert_eq!(whole_cells(-19), -1);
    assert_eq!(whole_cells(-10), -1);
    assert_eq!(whole_cells(-9), 0);
    assert_eq!(whole_cells(9), 0);
    assert_eq!(whole_cells(10), 1);
    assert_eq!(whole_cells(20), 2);
    assert_eq!(whole_cells(i32::MIN), -214748364);
}

#[test]
fn gravity_caps_at_terminal_velocity() {
    assert_eq!(accelerate(-20), -18);
    assert_eq!(accelerate(0), 2);
    assert_eq!(accelerate(18), 20);
    assert_eq!(accelerate(19), 20);
    assert_eq!(accelerate(20), 20);
    assert_eq!(accelerate(25), 25);
}

#[test]
fn clock_steps_only_past_limit() {
    assert_eq!(advance_clock(0, 45_000, 45_000), (45_000, false));
    assert_eq!(advance_clock(45_000, 1, 45_000), (0, true));
    assert_eq!(advance_clock(10, u32::MAX, 45_000), (0, true));
}
