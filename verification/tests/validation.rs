use ocpp_client::ocpp_1_6::OCPP1_6Error;
use ocpp_client::ocpp_2_0_1::OCPP2_0_1Error;
use ocpp_client::ocpp_2_1::OCPP2_1Error;
use ocpp_client::validation::{
    constraint_class, decimal_text, render_path, violation_of, ConstraintClass, KindVariant,
    PathSegment, Violation,
};
use ocpp_types::v21::ClearVariableMonitoringRequest;
use ocpp_types::validate::{Validate, ValidationError, ValidationErrorKind};
use serde_json::Value;

/// A real 1.6 payload that breaks a `maxLength` the type cannot carry.
fn oversized_1_6_csr() -> ValidationError {
    ocpp_types::v16::SignCertificateRequest {
        csr: "-".repeat(6000),
    }
    .validate()
    .expect_err("a 6000-character csr breaks maxLength: 5500")
}

/// A real 2.1 payload that breaks `minItems: 1`.
fn empty_2_1_monitor_list() -> ValidationError {
    ClearVariableMonitoringRequest::<()> {
        custom_data: None,
        id: Vec::new(),
    }
    .validate()
    .expect_err("an empty id list breaks minItems: 1")
}

fn text(s: &str) -> Value {
    Value::String(s.to_string())
}

#[test]
fn a_property_violation_maps_to_property_constraint_violation() {
    let error = OCPP1_6Error::from_validation_error(&oversized_1_6_csr());

    assert_eq!(error.code(), "PropertyConstraintViolation");
    assert!(
        error.description().contains("csr"),
        "description should name the failing field, got {:?}",
        error.description()
    );
}

#[test]
fn a_1_6_occurrence_violation_keeps_the_one_r_spelling() {
    let error = OCPP1_6Error::from_validation_error(&ValidationError::new(
        ValidationErrorKind::TooFewItems { len: 0, min: 1 },
    ));

    assert_eq!(error.code(), "OccurenceConstraintViolation");
}

#[test]
fn a_2_0_1_occurrence_violation_uses_the_two_r_spelling() {
    let error = OCPP2_0_1Error::from_validation_error(&ValidationError::new(
        ValidationErrorKind::TooFewItems { len: 0, min: 1 },
    ));

    assert_eq!(error.code(), "OccurrenceConstraintViolation");
}

#[test]
fn a_2_1_occurrence_violation_uses_the_two_r_spelling() {
    let error = OCPP2_1Error::from_validation_error(&empty_2_1_monitor_list());

    assert_eq!(error.code(), "OccurrenceConstraintViolation");
    assert!(
        error.description().contains("id"),
        "description should name the failing field, got {:?}",
        error.description()
    );
}

#[test]
fn details_carry_the_json_path_with_array_indices() {
    let violation = ClearVariableMonitoringRequest::<()> {
        custom_data: None,
        id: vec![-1],
    }
    .validate()
    .expect_err("-1 breaks minimum: 0");
    let error = OCPP2_1Error::from_validation_error(&violation);

    assert_eq!(error.code(), "PropertyConstraintViolation");
    assert_eq!(error.details()["path"], text("id[0]"));
}

#[test]
fn a_rootless_violation_still_renders_a_path() {
    let error = OCPP2_1Error::from_validation_error(&ValidationError::new(
        ValidationErrorKind::TooFewItems { len: 0, min: 1 },
    ));

    assert_eq!(error.details()["path"], text("<payload>"));
}

#[test]
fn the_details_path_and_the_description_agree() {
    for error in [
        oversized_1_6_csr(),
        empty_2_1_monitor_list(),
        ClearVariableMonitoringRequest::<()> {
            custom_data: None,
            id: vec![-1],
        }
        .validate()
        .expect_err("-1 breaks minimum: 0"),
        ValidationError::new(ValidationErrorKind::TooFewItems { len: 0, min: 1 }),
    ] {
        let upstream = error.to_string();
        let mapped = OCPP2_1Error::from_validation_error(&error);
        let path = mapped.details()["path"].as_str().unwrap().to_string();

        assert!(
            upstream.starts_with(&format!("{path}: ")),
            "path {path:?} should prefix upstream's rendering {upstream:?}"
        );
    }
}

#[test]
fn a_violation_reads_class_message_and_path_from_the_outside_error() {
    let error = ClearVariableMonitoringRequest::<()> {
        custom_data: None,
        id: vec![-1],
    }
    .validate()
    .unwrap_err();
    let violation = violation_of(&error);
    assert_eq!(violation.class, ConstraintClass::Property);
    assert_eq!(violation.message, error.to_string());
    assert!(!violation.path_truncated);
    assert_eq!(
        violation.path,
        vec![PathSegment::Field("id".to_string()), PathSegment::Index(0)]
    );
}

#[test]
fn a_truncated_path_keeps_its_innermost_segments() {
    let mut error = ValidationError::new(ValidationErrorKind::TooLong { len: 3, max: 2 });
    for _ in 0..20 {
        error = error.in_field("a");
    }
    let violation = violation_of(&error);
    assert!(violation.path_truncated);
    assert_eq!(violation.path.len(), 16);
    let mapped = OCPP2_0_1Error::from_validation_error(&error);
    let path = mapped.details()["path"].as_str().unwrap().to_string();
    assert!(path.starts_with("....a.a"));
    assert!(error.to_string().starts_with(&format!("{path}: ")));
}

#[test]
fn rendered_paths() {
    assert_eq!(render_path(false, &Vec::new()), "<payload>");
    assert_eq!(render_path(true, &Vec::new()), "...");
    assert_eq!(
        render_path(
            false,
            &vec![
                PathSegment::Field("chargingSchedule".to_string()),
                PathSegment::Index(12),
                PathSegment::Field("amount".to_string()),
            ]
        ),
        "chargingSchedule[12].amount"
    );
    assert_eq!(
        render_path(true, &vec![PathSegment::Field("amount".to_string())]),
        "....amount"
    );
    assert_eq!(render_path(false, &vec![PathSegment::Index(3)]), "[3]");
}

#[test]
fn decimal_texts() {
    assert_eq!(decimal_text(0), "0");
    assert_eq!(decimal_text(7), "7");
    assert_eq!(decimal_text(10), "10");
    assert_eq!(decimal_text(1234567890), "1234567890");
}

#[test]
fn a_violation_built_by_hand_maps_per_version() {
    let violation = Violation {
        class: ConstraintClass::Occurrence,
        message: "id: expected at least 1 item, got 0".to_string(),
        path_truncated: false,
        path: vec![PathSegment::Field("id".to_string())],
    };
    let e16 = OCPP1_6Error::from_violation(violation.clone());
    let e201 = OCPP2_0_1Error::from_violation(violation.clone());
    let e21 = OCPP2_1Error::from_violation(violation);
    assert_eq!(e16.code(), "OccurenceConstraintViolation");
    assert_eq!(e201.code(), "OccurrenceConstraintViolation");
    assert_eq!(e21.code(), "OccurrenceConstraintViolation");
    assert_eq!(e16.description(), "id: expected at least 1 item, got 0");
    assert_eq!(e21.details()["path"], text("id"));
    assert_eq!(e201.details().as_object().unwrap().len(), 1);
}

#[test]
fn only_item_counts_are_occurrence_constraints() {
    assert_eq!(constraint_class(KindVariant::TooManyItems), ConstraintClass::Occurrence);
    assert_eq!(constraint_class(KindVariant::TooFewItems), ConstraintClass::Occurrence);
    assert_eq!(constraint_class(KindVariant::TooLong), ConstraintClass::Property);
    assert_eq!(constraint_class(KindVariant::BelowMinimum), ConstraintClass::Property);
    assert_eq!(constraint_class(KindVariant::AboveMaximum), ConstraintClass::Property);
    assert_eq!(constraint_class(KindVariant::NotMultipleOf), ConstraintClass::Property);
}

#[test]
fn an_item_count_violation_read_from_the_outside_error_is_an_occurrence() {
    let error = ValidationError::new(ValidationErrorKind::TooFewItems { len: 0, min: 1 }).in_field("id");
    let violation = violation_of(&error);
    assert_eq!(violation.class, ConstraintClass::Occurrence);
    assert_eq!(violation.message, "id: expected at least 1 item, got 0");
    assert!(violation.message.starts_with("id: "));
}
