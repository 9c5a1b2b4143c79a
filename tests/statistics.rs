use myrust::prompt::{is_yes, is_yes_trimmed};
use myrust::statistics::{mean, median, mode};

#[test]
fn mean_of_sample() {
    let numbers = vec![1, 6, 2, 8, 5, 2, 9, 7, 4];
    assert_eq!(mean(&numbers), 4);
}

#[test]
fn mean_rounds_toward_zero() {
    assert_eq!(mean(&vec![-7, 0]), -3);
    assert_eq!(mean(&vec![7, 0]), 3);
    assert_eq!(mean(&vec![i32::MAX, -1]), (i32::MAX - 1) / 2);
}

#[test]
fn median_of_sample() {
    let numbers = vec![1, 6, 2, 8, 5, 2, 9, 7, 4];
    assert_eq!(median(&numbers), Some(5));
}

#[test]
fn median_of_even_length_takes_upper_middle() {
    assert_eq!(median(&vec![4, 1, 3, 2]), Some(3));
}

#[test]
fn median_of_empty_is_none() {
    assert_eq!(median(&vec![]), None);
}

#[test]
fn mode_of_samples() {
    assert_eq!(mode(&vec![1, 6, 2, 8, 5, 2, 9, 7, 4]), Some(2));
    assert_eq!(mode(&vec![1, 3, 2, 1, 2, 1]), Some(1));
}

#[test]
fn mode_tie_goes_to_first_seen() {
    assert_eq!(mode(&vec![5, 7, 7, 5]), Some(5));
    assert_eq!(mode(&vec![3, 9]), Some(3));
}

#[test]
fn mode_of_empty_is_none() {
    assert_eq!(mode(&vec![]), None);
}

#[test]
fn yes_answers() {
    assert!(is_yes("y\n"));
    assert!(is_yes("  y "));
    assert!(!is_yes("yes\n"));
    assert!(!is_yes("n\n"));
    assert!(!is_yes(""));
}

#[test]
fn trimmed_yes_answers() {
    assert!(is_yes_trimmed("y"));
    assert!(!is_yes_trimmed(" y"));
    assert!(!is_yes_trimmed("Y"));
}
