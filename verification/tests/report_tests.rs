use std::collections::HashSet;

use fluent_asserts::hashset::{HashSetAssertions, ValueHashSetAssertions};
use fluent_asserts::string::StrAssertions;
use fluent_asserts::subject::{assert_that, Location};

#[test]
fn entry_point_starts_without_metadata() {
    let value = 5;
    let subject = assert_that(&value);
    assert!(subject.subject_name.is_none());
    assert!(subject.location.is_none());
    assert!(subject.description.is_none());
    assert_eq!(*subject.subject, 5);
}

#[test]
fn report_carries_name_location_and_description() {
    let mut test_set = HashSet::new();
    test_set.insert(1);

    let e = assert_that(&test_set)
        .named("&test_set")
        .located(Location { file: "suite.rs", line: 41, column: 9 })
        .described("the working set")
        .is_empty()
        .unwrap_err();
    assert_eq!(
        e.report().as_str(),
        "\n\tthe working set:\
         \n\tsubject: &test_set\
         \n\tat: suite.rs:41:9\
         \n\texpected: an empty hashset\
         \n\twas: a hashset with length <1>"
    );
}

#[test]
fn chained_failure_reports_the_root_subject() {
    let mut test_set = HashSet::new();
    test_set.insert("Hello");

    let mut element = assert_that(&test_set)
        .named("&test_set")
        .contains_value(&"Hello")
        .unwrap();
    assert_eq!(element.subject_name, Some("&test_set"));

    let e = element.equals_to("World").unwrap_err();
    let report = e.report().clone();
    assert!(report.starts_with(
        "\n\tsubject: &test_set\
         \n\texpected: string equals to <\"World\">\
         \n\t but was: <\"Hello\">"
    ));
}

#[test]
fn drill_down_element_satisfies_the_expected_equality() {
    let mut test_set = HashSet::new();
    test_set.insert("Hello");

    let mut element = assert_that(&test_set).contains_value(&"Hello").unwrap();
    assert!(element.equals_to("Hello").is_ok());
}
