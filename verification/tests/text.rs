use cargo_post::text::{appended, starts_with, strip_leading};

#[test]
fn strips_every_leading_repetition() {
    assert_eq!(strip_leading("--target=--target=x", "--target="), "x");
    assert_eq!(strip_leading("x86_64", "--target="), "x86_64");
}

#[test]
fn finds_a_prefix() {
    assert!(starts_with("--target-dir", "--target"));
    assert!(!starts_with("--tar", "--target"));
    assert_eq!(appended("cargo ", "build"), "cargo build");
}
