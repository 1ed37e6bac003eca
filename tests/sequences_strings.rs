use rust_basics::reports::{option_report, parse_report};
use rust_basics::sequences::{create_range_iter, double_and_filter, sum_slice};
use rust_basics::strings::longest;

#[test]
fn longest_prefers_more_bytes() {
    let a = "Hello";
    let b = "こんにちは";
    let r = longest(a, b);
    assert_eq!(r, b);
    assert!(std::ptr::eq(r, b));
}

#[test]
fn longest_first_when_longer() {
    assert_eq!(longest("abcd", "xyz"), "abcd");
}

#[test]
fn longest_tie_gives_second() {
    let a = "abc";
    let b = "xyz";
    assert!(std::ptr::eq(longest(a, b), b));
    assert_eq!(longest("", ""), "");
}

#[test]
fn sum_of_one_to_five() {
    assert_eq!(sum_slice(&[1, 2, 3, 4, 5]), 15);
}

#[test]
fn sum_of_empty_is_zero() {
    assert_eq!(sum_slice(&[]), 0);
}

#[test]
fn sum_with_negatives_and_extremes() {
    assert_eq!(sum_slice(&[-7, 3, -1]), -5);
    assert_eq!(sum_slice(&[i32::MAX, -1, 1]), i32::MAX);
}

#[test]
fn double_then_filter_one_to_five() {
    assert_eq!(double_and_filter(&[1, 2, 3, 4, 5]), vec![6, 8, 10]);
}

#[test]
fn double_then_filter_edges() {
    assert_eq!(double_and_filter(&[]), Vec::<i32>::new());
    assert_eq!(double_and_filter(&[3, -4, 2]), vec![6]);
}

#[test]
fn range_is_zero_to_four() {
    let r = create_range_iter();
    assert_eq!(r.start, 0);
    assert_eq!(r.end, 5);
    let v: Vec<i32> = create_range_iter().collect();
    assert_eq!(v, vec![0, 1, 2, 3, 4]);
}

#[test]
fn option_report_branches() {
    assert_eq!(option_report(Some(100)), "50より大きい値: 100");
    assert_eq!(option_report(Some(50)), "50以下の値: 50");
    assert_eq!(option_report(Some(-3)), "50以下の値: -3");
    assert_eq!(option_report(None), "値はありません");
}

#[test]
fn parse_report_success() {
    assert_eq!(parse_report("42").unwrap(), "パース成功: 42");
    assert_eq!(parse_report("-17").unwrap(), "パース成功: -17");
    assert_eq!(parse_report("+8").unwrap(), "パース成功: 8");
    assert_eq!(parse_report("2147483647").unwrap(), "パース成功: 2147483647");
}

#[test]
fn parse_report_failures() {
    assert!(parse_report("not_number").is_err());
    assert!(parse_report("").is_err());
    assert!(parse_report("-").is_err());
    assert!(parse_report(" 4").is_err());
    assert!(parse_report("2147483648").is_err());
}
