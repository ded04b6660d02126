use std::collections::HashSet;

use fluent_asserts::failure::AssertionMismatch;
use fluent_asserts::hashset::{HashSetAssertions, ValueHashSetAssertions};
use fluent_asserts::subject::assert_that;

fn set_ok<T>(r: Result<T, AssertionMismatch>) -> T {
    match r {
        Ok(v) => v,
        Err(e) => panic!("{}", e.report()),
    }
}

#[test]
fn should_not_panic_if_hashset_length_matches_expected() {
    let mut test_set = HashSet::new();
    test_set.insert(1);
    test_set.insert(2);

    set_ok(assert_that(&test_set).has_length(2));
}

#[test]
#[should_panic(expected = "\n\texpected: hashset to have length <1>\n\twas: <2>")]
fn should_panic_if_hashset_length_does_not_match_expected() {
    let mut test_set = HashSet::new();
    test_set.insert(1);
    test_set.insert(2);

    set_ok(assert_that(&test_set).has_length(1));
}

#[test]
fn should_not_panic_if_hashset_was_expected_to_be_empty_and_is() {
    let test_set: HashSet<u8> = HashSet::new();
    set_ok(assert_that(&test_set).is_empty());
}

#[test]
#[should_panic(expected = "\n\texpected: an empty hashset\
                           \n\twas: a hashset with length <1>")]
fn should_panic_if_hashset_was_expected_to_be_empty_and_is_not() {
    let mut test_set = HashSet::new();
    test_set.insert(1);

    set_ok(assert_that(&test_set).is_empty());
}

#[test]
fn should_not_panic_if_hashset_contains_value() {
    let mut test_set = HashSet::new();
    test_set.insert(1);

    set_ok(assert_that(&test_set).contains_value(&1));
}

#[test]
#[should_panic(expected = "\n\texpected: hashset to contain value <2>\
                           \n\twas: <[1]>")]
fn should_panic_if_hashset_does_not_contain_value() {
    let mut test_set = HashSet::new();
    test_set.insert(1);

    set_ok(assert_that(&test_set).contains_value(&2));
}

#[test]
fn should_not_panic_if_hashset_does_not_contain_value() {
    let mut test_set = HashSet::new();
    test_set.insert(1);

    set_ok(assert_that(&test_set).does_not_contain_value(&2));
}

#[test]
#[should_panic(expected = "\n\texpected: hashset to not contain value <1>\
                           \n\twas: present in hashset")]
fn should_panic_if_hashset_contains_value() {
    let mut test_set = HashSet::new();
    test_set.insert(1);

    set_ok(assert_that(&test_set).does_not_contain_value(&1));
}

#[test]
fn hashset_length_failure_quotes_the_true_size_in_decimal() {
    let mut test_set = HashSet::new();
    for i in 0..12 {
        test_set.insert(i);
    }

    let e = assert_that(&test_set).has_length(11).unwrap_err();
    assert_eq!(
        e.report().as_str(),
        "\n\texpected: hashset to have length <11>\n\twas: <12>"
    );
}

#[test]
fn hashset_contains_value_yields_the_matched_element() {
    let mut test_set = HashSet::new();
    test_set.insert(7);

    let element = set_ok(assert_that(&test_set).contains_value(7));
    assert_eq!(*element.subject, 7);
}

#[test]
fn hashset_contains_value_accepts_every_borrow_form() {
    let mut test_set = HashSet::new();
    test_set.insert(1);

    set_ok(assert_that(&test_set).contains_value(1));
    set_ok(assert_that(&test_set).contains_value(&1));
    set_ok(assert_that(&test_set).contains_value(&mut 1));
    set_ok(assert_that(&test_set).does_not_contain_value(2));
    set_ok(assert_that(&test_set).does_not_contain_value(&2));
    set_ok(assert_that(&test_set).does_not_contain_value(&mut 2));
}

#[test]
fn hashset_contains_and_does_not_contain_are_complementary() {
    let mut test_set = HashSet::new();
    test_set.insert(1);
    test_set.insert(2);

    for v in 0..4 {
        let held = assert_that(&test_set).contains_value(&v).is_ok();
        let absent = assert_that(&test_set).does_not_contain_value(&v).is_ok();
        assert_ne!(held, absent);
        assert_eq!(held, test_set.contains(&v));
    }
}

#[test]
fn hashset_borrow_forms_produce_identical_reports() {
    let mut test_set = HashSet::new();
    test_set.insert(1);

    let owned = assert_that(&test_set).contains_value(2).unwrap_err();
    let shared = assert_that(&test_set).contains_value(&2).unwrap_err();
    let unique = assert_that(&test_set).contains_value(&mut 2).unwrap_err();
    assert_eq!(owned.report(), shared.report());
    assert_eq!(shared.report().as_str(), unique.into_report().as_str());
}

#[test]
fn hashset_empty_set_fails_contains_with_empty_rendering() {
    let test_set: HashSet<u8> = HashSet::new();

    let e = assert_that(&test_set).contains_value(&3u8).unwrap_err();
    assert_eq!(
        e.report().as_str(),
        "\n\texpected: hashset to contain value <3>\n\twas: <[]>"
    );
}
