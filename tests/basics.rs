use myrust::functions::{fibonacci, return_something, return_something_else};
use myrust::generics::largest;

#[test]
fn it_works() {
    assert_eq!(2 + 2, 4);
}

#[test]
fn test_with_assert() {
    let is_four_equals_to_sum_of_two_and_two = 4 == 2 * 2;
    assert!(is_four_equals_to_sum_of_two_and_two, "4 is not 2 * 2");
}

#[test]
fn test_if_two_plus_two_is_four() -> Result<(), String> {
    if 2 + 2 == 4 {
        Ok(())
    } else {
        Err(String::from("two plus two does not equal four"))
    }
}

#[test]
fn returned_values() {
    assert_eq!(return_something(), 2);
    assert_eq!(return_something_else(), 13);
}

#[test]
fn fibonacci_values() {
    assert_eq!(fibonacci(0), 0);
    assert_eq!(fibonacci(1), 1);
    assert_eq!(fibonacci(6), 8);
    assert_eq!(fibonacci(8), 21);
    assert_eq!(fibonacci(20), 6765);
}

#[test]
fn largest_number() {
    let v = vec![1, 6, 2, 9, 4, 3];
    assert_eq!(*largest(&v), 9);
    assert_eq!(*largest(&[5]), 5);
}

#[test]
fn largest_picks_first_of_equal_maxima() {
    let v = vec![(1, 'a'), (3, 'b'), (3, 'b'), (2, 'c')];
    let r = largest(&v);
    assert!(std::ptr::eq(r, &v[1]));
}

#[test]
fn largest_string() {
    let v = vec!["pear", "apple", "zucchini", "fig"];
    assert_eq!(*largest(&v), "zucchini");
}
