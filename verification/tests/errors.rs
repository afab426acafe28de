use ocpp_client::ocpp_1_6::{self, OCPP1_6Error};
use ocpp_client::ocpp_2_0_1::{self, OCPP2_0_1Error};
use ocpp_client::ocpp_2_1::OCPP2_1Error;
use serde_json::Value;

const CODES_1_6: [ocpp_1_6::RpcErrorCode; 10] = [
    ocpp_1_6::RpcErrorCode::NotImplemented,
    ocpp_1_6::RpcErrorCode::NotSupported,
    ocpp_1_6::RpcErrorCode::InternalError,
    ocpp_1_6::RpcErrorCode::ProtocolError,
    ocpp_1_6::RpcErrorCode::SecurityError,
    ocpp_1_6::RpcErrorCode::FormationViolation,
    ocpp_1_6::RpcErrorCode::PropertyConstraintViolation,
    ocpp_1_6::RpcErrorCode::OccurenceConstraintViolation,
    ocpp_1_6::RpcErrorCode::TypeConstraintViolation,
    ocpp_1_6::RpcErrorCode::GenericError,
];

const CODES_2_0_1: [ocpp_2_0_1::RpcErrorCode; 12] = [
    ocpp_2_0_1::RpcErrorCode::FormatViolation,
    ocpp_2_0_1::RpcErrorCode::GenericError,
    ocpp_2_0_1::RpcErrorCode::InternalError,
    ocpp_2_0_1::RpcErrorCode::MessageTypeNotSupported,
    ocpp_2_0_1::RpcErrorCode::NotImplemented,
    ocpp_2_0_1::RpcErrorCode::NotSupported,
    ocpp_2_0_1::RpcErrorCode::OccurrenceConstraintViolation,
    ocpp_2_0_1::RpcErrorCode::PropertyConstraintViolation,
    ocpp_2_0_1::RpcErrorCode::ProtocolError,
    ocpp_2_0_1::RpcErrorCode::RpcFrameworkError,
    ocpp_2_0_1::RpcErrorCode::SecurityError,
    ocpp_2_0_1::RpcErrorCode::TypeConstraintViolation,
];

fn empty_object() -> Value {
    Value::Object(serde_json::Map::new())
}

#[test]
fn the_1_6_wire_spellings() {
    assert_eq!(ocpp_1_6::wire_code(ocpp_1_6::RpcErrorCode::NotImplemented), "NotImplemented");
    assert_eq!(
        ocpp_1_6::wire_code(ocpp_1_6::RpcErrorCode::OccurenceConstraintViolation),
        "OccurenceConstraintViolation"
    );
    assert_eq!(
        ocpp_1_6::wire_code(ocpp_1_6::RpcErrorCode::FormationViolation),
        "FormationViolation"
    );
}

#[test]
fn the_2_0_1_wire_spellings() {
    assert_eq!(
        ocpp_2_0_1::wire_code(ocpp_2_0_1::RpcErrorCode::OccurrenceConstraintViolation),
        "OccurrenceConstraintViolation"
    );
    assert_eq!(
        ocpp_2_0_1::wire_code(ocpp_2_0_1::RpcErrorCode::MessageTypeNotSupported),
        "MessageTypeNotSupported"
    );
    assert_eq!(
        ocpp_2_0_1::wire_code(ocpp_2_0_1::RpcErrorCode::RpcFrameworkError),
        "RpcFrameworkError"
    );
}

#[test]
fn every_1_6_code_reads_back_from_its_wire_spelling() {
    for code in CODES_1_6 {
        assert_eq!(ocpp_1_6::code_from_wire(ocpp_1_6::wire_code(code)), code);
    }
}

#[test]
fn every_2_0_1_code_reads_back_from_its_wire_spelling() {
    for code in CODES_2_0_1 {
        assert_eq!(ocpp_2_0_1::code_from_wire(ocpp_2_0_1::wire_code(code)), code);
    }
}

#[test]
fn an_unknown_code_reads_as_a_generic_error() {
    assert_eq!(ocpp_1_6::code_from_wire("Teapot"), ocpp_1_6::RpcErrorCode::GenericError);
    assert_eq!(ocpp_2_0_1::code_from_wire(""), ocpp_2_0_1::RpcErrorCode::GenericError);
    // Each version reads only its own spelling.
    assert_eq!(
        ocpp_1_6::code_from_wire("OccurrenceConstraintViolation"),
        ocpp_1_6::RpcErrorCode::GenericError
    );
    assert_eq!(
        ocpp_2_0_1::code_from_wire("OccurenceConstraintViolation"),
        ocpp_2_0_1::RpcErrorCode::GenericError
    );
    assert_eq!(
        ocpp_2_0_1::code_from_wire("FormationViolation"),
        ocpp_2_0_1::RpcErrorCode::GenericError
    );
}

#[test]
fn not_implemented_names_the_action() {
    let e16 = OCPP1_6Error::not_implemented("Reset");
    assert_eq!(e16.code(), "NotImplemented");
    assert_eq!(e16.description(), "Action 'Reset' is not implemented");
    assert_eq!(*e16.details(), empty_object());

    let e201 = OCPP2_0_1Error::not_implemented("Reset");
    assert_eq!(e201.code(), "NotImplemented");
    assert_eq!(e201.description(), "Action 'Reset' is not implemented");

    let e21 = OCPP2_1Error::not_implemented("GetLog");
    assert_eq!(e21.code(), "NotImplemented");
    assert_eq!(e21.description(), "Action 'GetLog' is not implemented");
    assert_eq!(*e21.details(), empty_object());
}

#[test]
fn from_wire_keeps_what_the_frame_carried() {
    let mut details = serde_json::Map::new();
    details.insert("hint".to_string(), Value::from(7u64));
    let e = OCPP2_1Error::from_wire("SecurityError", "denied", Value::Object(details.clone()));
    assert_eq!(e.code(), "SecurityError");
    assert_eq!(e.description(), "denied");
    assert_eq!(*e.details(), Value::Object(details));

    let unknown = OCPP1_6Error::from_wire("Bogus", "what", Value::Null);
    assert_eq!(unknown.code, ocpp_1_6::RpcErrorCode::GenericError);
    assert_eq!(unknown.code(), "GenericError");
    assert_eq!(*unknown.details(), Value::Null);
}

#[test]
fn the_1_6_constructors() {
    let cases = [
        (OCPP1_6Error::new_not_implemented("a"), "NotImplemented", "a"),
        (OCPP1_6Error::new_security_error("b"), "SecurityError", "b"),
        (OCPP1_6Error::new_formation_violation("c"), "FormationViolation", "c"),
        (OCPP1_6Error::new_internal_str("d"), "InternalError", "d"),
        (OCPP1_6Error::new_internal(&"e".to_string()), "InternalError", "e"),
    ];
    for (error, code, description) in cases {
        assert_eq!(error.code(), code);
        assert_eq!(error.description(), description);
        assert_eq!(*error.details(), empty_object());
    }
}

#[test]
fn the_2_0_1_constructors() {
    let cases = [
        (OCPP2_0_1Error::new_not_implemented("a"), "NotImplemented", "a"),
        (OCPP2_0_1Error::new_security_error("b"), "SecurityError", "b"),
        (OCPP2_0_1Error::new_format_violation("c"), "FormatViolation", "c"),
        (OCPP2_0_1Error::new_internal_str("d"), "InternalError", "d"),
        (OCPP2_0_1Error::new_internal(&"e".to_string()), "InternalError", "e"),
    ];
    for (error, code, description) in cases {
        assert_eq!(error.code(), code);
        assert_eq!(error.description(), description);
        assert_eq!(*error.details(), empty_object());
    }
}

#[test]
fn the_2_1_codes_are_the_2_0_1_codes() {
    assert_eq!(
        ocpp_client::ocpp_2_1::wire_code(ocpp_client::ocpp_2_1::RpcErrorCode::FormatViolation),
        "FormatViolation"
    );
    let e = OCPP2_1Error::from_wire("RpcFrameworkError", "x", Value::Null);
    assert_eq!(e.code, ocpp_2_0_1::RpcErrorCode::RpcFrameworkError);
}

#[test]
fn an_error_reads_as_code_then_description() {
    assert_eq!(
        OCPP1_6Error::new_security_error("bad cert").display_text(),
        "SecurityError: bad cert"
    );
    assert_eq!(
        OCPP2_0_1Error::not_implemented("Reset").display_text(),
        "NotImplemented: Action 'Reset' is not implemented"
    );
    assert_eq!(
        OCPP2_1Error::from_wire("Nonsense", "x", Value::Null).display_text(),
        "GenericError: x"
    );
}
