//! The two checked update rules, on exact values and on each failure.

use token::arith::{add_checked, sub_checked};
use token::SolutionError;

#[test]
fn add_checked_exact() {
    assert_eq!(add_checked(2, 3), Ok(5));
    assert_eq!(add_checked(-2, 3), Ok(1));
    assert_eq!(add_checked(i64::MAX, 0), Ok(i64::MAX));
}

#[test]
fn add_checked_overflow() {
    assert_eq!(add_checked(i64::MAX, 1), Err(SolutionError::Overflow));
    assert_eq!(add_checked(i64::MIN, -1), Err(SolutionError::Overflow));
}

#[test]
fn sub_checked_exact() {
    assert_eq!(sub_checked(5, 3), Ok(2));
    assert_eq!(sub_checked(5, 5), Ok(0));
    assert_eq!(sub_checked(-3, -5), Ok(2));
}

#[test]
fn sub_checked_underflow_when_taking_more_than_there_is() {
    assert_eq!(sub_checked(3, 5), Err(SolutionError::Underflow));
    assert_eq!(sub_checked(-5, -3), Err(SolutionError::Underflow));
    assert_eq!(sub_checked(0, 1), Err(SolutionError::Underflow));
}

#[test]
fn sub_checked_overflow_when_difference_not_representable() {
    assert_eq!(sub_checked(i64::MAX, -1), Err(SolutionError::Overflow));
    assert_eq!(sub_checked(0, i64::MIN), Err(SolutionError::Overflow));
}
