use std::borrow::Cow;

use json_guard::guard::outcome::{Outcome, Rejection, Status};
use json_guard::guard::text::join;
use json_guard::guard::violations::{collect, format_violation};
use json_guard::guard::{
    handle_field_validation_error, handle_validation_errors, perform_custom_validation,
    validation_failure,
};
use validator::{Validate, ValidationError, ValidationErrors};

fn violation(code: &'static str, message: &'static str) -> ValidationError {
    ValidationError::new(code).with_message(Cow::from(message))
}

fn texts(items: &[&str]) -> Vec<String> {
    items.iter().map(|item| item.to_string()).collect()
}

struct Signup {
    name: String,
}

impl Validate for Signup {
    fn validate(&self) -> Result<(), ValidationErrors> {
        let mut errors = ValidationErrors::new();
        if self.name.trim().is_empty() {
            errors.add("name", violation("length", "name must not be empty"));
        }
        if self.name.contains(' ') {
            errors.add("name", violation("spaces", "name must not hold spaces"));
        }
        if errors.is_empty() {
            Ok(())
        } else {
            Err(errors)
        }
    }
}

#[test]
fn violation_with_message_is_quoted() {
    let error = violation("length", "too short");
    assert_eq!(handle_field_validation_error(&error), "'too short'");
}

#[test]
fn violation_with_owned_message_is_quoted() {
    let error = ValidationError::new("range").with_message(Cow::from(format!("at most {}", 10)));
    assert_eq!(handle_field_validation_error(&error), "'at most 10'");
}

#[test]
fn violation_with_empty_message_is_two_quotes() {
    let error = violation("length", "");
    assert_eq!(handle_field_validation_error(&error), "''");
}

#[test]
fn violation_without_message_is_empty() {
    let error = ValidationError::new("length");
    assert_eq!(handle_field_validation_error(&error), "");
}

#[test]
fn format_violation_quotes_or_leaves_empty() {
    assert_eq!(format_violation(&Some(String::from("a'b"))), "'a'b'");
    assert_eq!(format_violation(&Some(String::new())), "''");
    assert_eq!(format_violation(&None), "");
}

#[test]
fn no_violations_no_reports() {
    assert_eq!(handle_validation_errors(ValidationErrors::new()), Vec::<String>::new());
}

#[test]
fn violations_of_one_field_keep_their_order() {
    let mut errors = ValidationErrors::new();
    errors.add("name", violation("length", "too short"));
    errors.add("name", violation("charset", "not ascii"));
    errors.add("name", violation("taken", "already taken"));
    assert_eq!(
        handle_validation_errors(errors),
        texts(&["'too short'", "'not ascii'", "'already taken'"])
    );
}

#[test]
fn violations_without_message_are_skipped() {
    let mut errors = ValidationErrors::new();
    errors.add("name", ValidationError::new("length"));
    errors.add("name", violation("charset", "not ascii"));
    errors.add("name", ValidationError::new("taken"));
    assert_eq!(handle_validation_errors(errors), texts(&["'not ascii'"]));
}

#[test]
fn only_violations_without_message_give_no_reports() {
    let mut errors = ValidationErrors::new();
    errors.add("name", ValidationError::new("length"));
    errors.add("age", ValidationError::new("range"));
    assert_eq!(handle_validation_errors(errors), Vec::<String>::new());
}

#[test]
fn violations_of_several_fields_are_all_reported() {
    let mut errors = ValidationErrors::new();
    errors.add("name", violation("length", "name too short"));
    errors.add("age", violation("range", "age too low"));
    errors.add("mail", violation("email", "mail malformed"));
    errors.add("age", violation("odd", "age not even"));
    let reports = handle_validation_errors(errors);
    assert_eq!(reports.len(), 4);
    let low = reports.iter().position(|text| text == "'age too low'").unwrap();
    let even = reports.iter().position(|text| text == "'age not even'").unwrap();
    assert_eq!(even, low + 1);
    let mut sorted = reports.clone();
    sorted.sort();
    assert_eq!(
        sorted,
        texts(&["'age not even'", "'age too low'", "'mail malformed'", "'name too short'"])
    );
}

#[test]
fn nested_violations_are_not_field_level() {
    let mut inner = ValidationErrors::new();
    inner.add("street", violation("length", "street too short"));
    let mut outer = ValidationErrors::new();
    outer.add("name", violation("length", "name too short"));
    let merged = ValidationErrors::merge(Err(outer), "address", Err(inner)).unwrap_err();
    assert_eq!(handle_validation_errors(merged), texts(&["'name too short'"]));
}

#[test]
fn collect_takes_fields_in_turn() {
    let groups = vec![
        vec![Some(String::from("a")), None, Some(String::from("b"))],
        vec![],
        vec![None],
        vec![Some(String::from("c"))],
    ];
    assert_eq!(collect(&groups), texts(&["'a'", "'b'", "'c'"]));
    assert_eq!(collect(&Vec::new()), Vec::<String>::new());
}

#[test]
fn join_puts_the_separator_between_parts() {
    assert_eq!(join(&Vec::new(), ";"), "");
    assert_eq!(join(&texts(&["a"]), ";"), "a");
    assert_eq!(join(&texts(&["a", "b", "c"]), ";"), "a;b;c");
    assert_eq!(join(&texts(&["", "", ""]), ";"), ";;");
    assert_eq!(join(&texts(&["a", "b"]), ""), "ab");
    assert_eq!(join(&texts(&["a", "b"]), ", "), "a, b");
}

#[test]
fn validation_failure_lists_the_reports() {
    assert_eq!(
        validation_failure(&texts(&["'a'", "'b'"])),
        Rejection {
            status: Status::BadRequest,
            message: String::from("The following validation errors occurred: 'a';'b'"),
        }
    );
    assert_eq!(
        validation_failure(&Vec::new()).message,
        "The following validation errors occurred: "
    );
}

#[test]
fn valid_value_comes_back_unchanged() {
    let outcome = perform_custom_validation(String::from("resource"), Ok(()));
    assert_eq!(outcome, Outcome::Success(String::from("resource")));
}

#[test]
fn one_broken_rule_is_a_bad_request() {
    let mut errors = ValidationErrors::new();
    errors.add("name", violation("length", "too short"));
    let outcome = perform_custom_validation(7u32, Err(errors));
    assert_eq!(
        outcome,
        Outcome::Failure(Rejection {
            status: Status::BadRequest,
            message: String::from("The following validation errors occurred: 'too short'"),
        })
    );
}

#[test]
fn three_broken_rules_give_three_reports() {
    let mut errors = ValidationErrors::new();
    errors.add("name", violation("length", "too short"));
    errors.add("name", violation("charset", "not ascii"));
    errors.add("name", violation("taken", "already taken"));
    let outcome = perform_custom_validation((), Err(errors));
    let rejection = match outcome {
        Outcome::Failure(rejection) => rejection,
        other => panic!("expected a refusal, got {:?}", other),
    };
    assert_eq!(rejection.status.code(), 400);
    assert_eq!(
        rejection.message,
        "The following validation errors occurred: 'too short';'not ascii';'already taken'"
    );
    let list = rejection.message.strip_prefix("The following validation errors occurred: ");
    assert_eq!(list.unwrap().split(';').count(), 3);
}

#[test]
fn broken_rules_of_several_fields_are_all_listed() {
    let mut errors = ValidationErrors::new();
    errors.add("name", violation("length", "name too short"));
    errors.add("age", violation("range", "age too low"));
    let outcome = perform_custom_validation((), Err(errors));
    let rejection = match outcome {
        Outcome::Failure(rejection) => rejection,
        other => panic!("expected a refusal, got {:?}", other),
    };
    assert_eq!(rejection.status, Status::BadRequest);
    let either = [
        "The following validation errors occurred: 'name too short';'age too low'",
        "The following validation errors occurred: 'age too low';'name too short'",
    ];
    assert!(either.contains(&rejection.message.as_str()));
}

#[test]
fn failure_without_field_violations_has_an_empty_list() {
    let outcome = perform_custom_validation((), Err(ValidationErrors::new()));
    assert_eq!(
        outcome,
        Outcome::Failure(Rejection {
            status: Status::BadRequest,
            message: String::from("The following validation errors occurred: "),
        })
    );
}

#[test]
fn rules_of_a_value_decide_its_outcome() {
    let good = Signup { name: String::from("ada") };
    let validation = good.validate();
    match perform_custom_validation(good, validation) {
        Outcome::Success(value) => {
            assert_eq!(value.name, "ada");
        },
        _ => panic!("expected the value back"),
    }
    let bad = Signup { name: String::from(" ") };
    let validation = bad.validate();
    match perform_custom_validation(bad, validation) {
        Outcome::Failure(rejection) => {
            assert_eq!(rejection.status, Status::BadRequest);
            assert_eq!(
                rejection.message,
                "The following validation errors occurred: \
                 'name must not be empty';'name must not hold spaces'"
            );
        },
        _ => panic!("expected a refusal"),
    }
}
