use fluent_asserts::failure::AssertionMismatch;
use fluent_asserts::string::StrAssertions;
use fluent_asserts::subject::assert_that;

fn text_ok(r: Result<(), AssertionMismatch>) {
    if let Err(e) = r {
        panic!("{}", e.report());
    }
}

#[test]
fn should_allow_multiple_borrow_forms_for_str() {
    let value = "Hello";
    text_ok(assert_that(&value).equals_to("Hello"));
    text_ok(assert_that(&value).equals_to(&mut "Hello"));
    text_ok(assert_that(&value).equals_to(&"Hello"));

    text_ok(assert_that(&value).starts_with("H"));
    text_ok(assert_that(&value).starts_with(&mut "H"));
    text_ok(assert_that(&value).starts_with(&"H"));

    text_ok(assert_that(&value).ends_with("o"));
    text_ok(assert_that(&value).ends_with(&mut "o"));
    text_ok(assert_that(&value).ends_with(&"o"));

    text_ok(assert_that(&value).contains("l"));
    text_ok(assert_that(&value).contains(&mut "l"));
    text_ok(assert_that(&value).contains(&"l"));
}

#[test]
fn should_not_panic_if_str_equals_to_value() {
    let value = "Hello";
    text_ok(assert_that(&value).equals_to(&"Hello"));
}

#[test]
#[should_panic(expected = "\n\texpected: string equals to <\"World\">\
                           \n\t but was: <\"Hello\">")]
fn should_panic_if_str_does_not_equals_to_value() {
    let value = "Hello";
    text_ok(assert_that(&value).equals_to(&"World"));
}

#[test]
fn should_not_panic_if_str_starts_with_value() {
    let value = "Hello";
    text_ok(assert_that(&value).starts_with(&"H"));
}

#[test]
#[should_panic(expected = "\n\texpected: string starting with <\"A\">\
                           \n\t but was: <\"Hello\">")]
fn should_panic_if_str_does_not_start_with_value() {
    let value = "Hello";
    text_ok(assert_that(&value).starts_with(&"A"));
}

#[test]
fn should_not_panic_if_str_ends_with_value() {
    let value = "Hello";
    text_ok(assert_that(&value).ends_with(&"o"));
}

#[test]
#[should_panic(expected = "\n\texpected: string ending with <\"A\">\n\t but was: <\"Hello\">")]
fn should_panic_if_str_does_not_end_with_value() {
    let value = "Hello";
    text_ok(assert_that(&value).ends_with(&"A"));
}

#[test]
fn should_not_panic_if_str_contains_value() {
    let value = "Hello";
    text_ok(assert_that(&value).contains(&"l"));
}

#[test]
#[should_panic(expected = "\n\texpected: string containing <\"A\">\n\t but was: <\"Hello\">")]
fn should_panic_if_str_does_not_contain_value() {
    let value = "Hello";
    text_ok(assert_that(&value).contains(&"A"));
}

#[test]
fn should_not_panic_if_str_is_empty() {
    let value = "";
    text_ok(assert_that(&value).is_empty());
}

#[test]
#[should_panic(expected = "\n\texpected: an empty string\n\t but was: <\"Hello\">")]
fn should_panic_if_str_is_not_empty() {
    let value = "Hello";
    text_ok(assert_that(&value).is_empty());
}

#[test]
fn should_allow_multiple_borrow_forms_for_string() {
    let value = "Hello".to_owned();
    text_ok(assert_that(&value).starts_with("H"));
    text_ok(assert_that(&value).starts_with(&mut "H"));
    text_ok(assert_that(&value).starts_with(&"H"));

    text_ok(assert_that(&value).ends_with("o"));
    text_ok(assert_that(&value).ends_with(&mut "o"));
    text_ok(assert_that(&value).ends_with(&"o"));

    text_ok(assert_that(&value).contains("l"));
    text_ok(assert_that(&value).contains(&mut "l"));
    text_ok(assert_that(&value).contains(&"l"));
}

#[test]
fn should_not_panic_if_string_starts_with_value() {
    let value = "Hello".to_owned();
    text_ok(assert_that(&value).starts_with(&"H"));
}

#[test]
#[should_panic(expected = "\n\texpected: string starting with <\"A\">\
                           \n\t but was: <\"Hello\">")]
fn should_panic_if_string_does_not_start_with_value() {
    let value = "Hello".to_owned();
    text_ok(assert_that(&value).starts_with(&"A"));
}

#[test]
fn should_not_panic_if_string_ends_with_value() {
    let value = "Hello".to_owned();
    text_ok(assert_that(&value).ends_with(&"o"));
}

#[test]
#[should_panic(expected = "\n\texpected: string ending with <\"A\">\n\t but was: <\"Hello\">")]
fn should_panic_if_string_does_not_end_with_value() {
    let value = "Hello".to_owned();
    text_ok(assert_that(&value).ends_with(&"A"));
}

#[test]
fn should_not_panic_if_string_contains_value() {
    let value = "Hello".to_owned();
    text_ok(assert_that(&value).contains(&"l"));
}

#[test]
#[should_panic(expected = "\n\texpected: string containing <\"A\">\n\t but was: <\"Hello\">")]
fn should_panic_if_string_does_not_contain_value() {
    let value = "Hello".to_owned();
    text_ok(assert_that(&value).contains(&"A"));
}

#[test]
fn should_not_panic_if_string_is_empty() {
    let value = "".to_owned();
    text_ok(assert_that(&value).is_empty());
}

#[test]
#[should_panic(expected = "\n\texpected: an empty string\n\t but was: <\"Hello\">")]
fn should_panic_if_string_is_not_empty() {
    let value = "Hello".to_owned();
    text_ok(assert_that(&value).is_empty());
}

#[test]
fn str_equality_failure_attaches_a_rendered_diff() {
    let value = "Hello";
    let e = assert_that(&value).equals_to("World").unwrap_err();
    let report = e.report().clone();
    let head = "\n\texpected: string equals to <\"World\">\n\t but was: <\"Hello\">\n\t";
    assert!(report.starts_with(head));
    assert!(report.contains("Diff"));
}

#[test]
fn str_predicates_accept_the_empty_expected_text() {
    let value = "Hello";
    text_ok(assert_that(&value).starts_with(""));
    text_ok(assert_that(&value).ends_with(""));
    text_ok(assert_that(&value).contains(""));
    let empty = "";
    text_ok(assert_that(&empty).starts_with(""));
    text_ok(assert_that(&empty).ends_with(""));
    text_ok(assert_that(&empty).contains(""));
}

#[test]
fn str_equality_is_case_sensitive_and_exact() {
    let value = "Hello";
    assert!(assert_that(&value).equals_to("hello").is_err());
    assert!(assert_that(&value).equals_to("Hello ").is_err());
    assert!(assert_that(&value).equals_to("Hell").is_err());
    assert!(assert_that(&value).equals_to("Hello").is_ok());
    assert!(assert_that(&value).starts_with("h").is_err());
    assert!(assert_that(&value).ends_with("O").is_err());
    assert!(assert_that(&value).contains("L").is_err());
}

#[test]
fn str_borrow_forms_produce_identical_reports() {
    let value = "Hello";
    let owned = assert_that(&value).equals_to("World").unwrap_err();
    let shared = assert_that(&value).equals_to(&"World").unwrap_err();
    let unique = assert_that(&value).equals_to(&mut "World").unwrap_err();
    assert_eq!(owned.report(), shared.report());
    assert_eq!(shared.report(), unique.report());
}
