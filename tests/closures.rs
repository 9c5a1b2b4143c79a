use myrust::memo::{generate_workout, Workout};
use myrust::Catcher;
use std::cell::Cell;

#[test]
fn call_with_different_values() {
    let mut c = Catcher::new(|a| a);

    let _v1 = c.value(1);
    let v2 = c.value(2);

    assert_eq!(v2, 2);
}

#[test]
fn closure_captures_environment_variables() {
    let x = 2;
    let is_equal_to_x = |y| y == x;
    assert!(is_equal_to_x(2));
    assert!(!is_equal_to_x(3));
}

#[test]
fn calling_closure_right_where_we_define_it() {
    let sum = (|a, b| a + b)(13, 42);
    assert_eq!(sum, 13 + 42);
}

#[test]
fn counted_identity_scenario() {
    let counter = Cell::new(0u32);
    let mut c = Catcher::new(|x| {
        counter.set(counter.get() + 1);
        x
    });
    assert_eq!(c.value(1), 1);
    assert_eq!(counter.get(), 1);
    assert_eq!(c.value(2), 2);
    assert_eq!(counter.get(), 2);
    assert_eq!(c.value(1), 1);
    assert_eq!(counter.get(), 2);
}

#[test]
fn same_key_twice_invokes_once() {
    let counter = Cell::new(0u32);
    let mut c = Catcher::new(|x| {
        counter.set(counter.get() + 1);
        x * 2
    });
    assert_eq!(c.value(7), 14);
    assert_eq!(c.value(7), 14);
    assert_eq!(counter.get(), 1);
}

#[test]
fn distinct_keys_invoke_twice() {
    let counter = Cell::new(0u32);
    let mut c = Catcher::new(|x| {
        counter.set(counter.get() + 1);
        x + 100
    });
    assert_eq!(c.value(3), 103);
    assert_eq!(c.value(4), 104);
    assert_eq!(counter.get(), 2);
    assert_eq!(c.value(3), 103);
    assert_eq!(c.value(4), 104);
    assert_eq!(counter.get(), 2);
}

#[test]
fn hit_returns_stored_not_recomputed() {
    let counter = Cell::new(0u32);
    let mut c = Catcher::new(|_x| {
        counter.set(counter.get() + 1);
        counter.get()
    });
    assert_eq!(c.value(5), 1);
    assert_eq!(c.value(5), 1);
    assert_eq!(c.value(6), 2);
    assert_eq!(c.value(5), 1);
    assert_eq!(c.value(6), 2);
}

#[test]
fn extreme_keys_are_cached() {
    let counter = Cell::new(0u32);
    let mut c = Catcher::new(|x: u32| {
        counter.set(counter.get() + 1);
        x.wrapping_add(1)
    });
    assert_eq!(c.value(u32::MAX), 0);
    assert_eq!(c.value(0), 1);
    assert_eq!(c.value(u32::MAX), 0);
    assert_eq!(counter.get(), 2);
}

#[test]
fn light_day_is_strength_with_one_calculation() {
    let counter = Cell::new(0u32);
    let w = generate_workout(10, 7, |n| {
        counter.set(counter.get() + 1);
        n
    });
    assert_eq!(w, Workout::Strength { pushups: 10, situps: 10 });
    assert_eq!(counter.get(), 1);
}

#[test]
fn hard_day_with_rest_draw_is_rest() {
    let counter = Cell::new(0u32);
    let w = generate_workout(25, 3, |n| {
        counter.set(counter.get() + 1);
        n
    });
    assert_eq!(w, Workout::Rest);
    assert_eq!(counter.get(), 0);
}

#[test]
fn hard_day_is_run() {
    let w = generate_workout(30, 7, |n| n + 1);
    assert_eq!(w, Workout::Run { minutes: 31 });
}
