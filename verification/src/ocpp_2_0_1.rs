//! OCPP 2.0.1: its CALLERROR codes and error type. The RPC framework error codes are the same
//! in 2.1, which shares them.

use vstd::prelude::*;
use crate::json::{empty_object, json_empty_object, json_object_of_texts, object_with_text};
use crate::validation::{
    ConstraintClass, Violation, render_path, spec_render_path, violation_of, spec_violation_class, spec_violation_message,
    validation_error_path, validation_error_truncated,
};
use crate::text::{concat3, not_implemented_text, same_text, spec_not_implemented_text};

verus! {

/// The RPC framework error codes of OCPP-J 2.0.1 and 2.1.
#[derive(Debug, Clone, Copy, PartialEq, Eq)]
pub enum RpcErrorCode {
    FormatViolation,
    GenericError,
    InternalError,
    MessageTypeNotSupported,
    NotImplemented,
    NotSupported,
    OccurrenceConstraintViolation,
    PropertyConstraintViolation,
    ProtocolError,
    RpcFrameworkError,
    SecurityError,
    TypeConstraintViolation,
}

/// The exact wire spelling of each code. 2.x spells `OccurrenceConstraintViolation` with two
/// `r`s.
pub open spec fn spec_wire_code(code: RpcErrorCode) -> Seq<char> {
    match code {
        RpcErrorCode::FormatViolation => "FormatViolation"@,
        RpcErrorCode::GenericError => "GenericError"@,
        RpcErrorCode::InternalError => "InternalError"@,
        RpcErrorCode::MessageTypeNotSupported => "MessageTypeNotSupported"@,
        RpcErrorCode::NotImplemented => "NotImplemented"@,
        RpcErrorCode::NotSupported => "NotSupported"@,
        RpcErrorCode::OccurrenceConstraintViolation => "OccurrenceConstraintViolation"@,
        RpcErrorCode::PropertyConstraintViolation => "PropertyConstraintViolation"@,
        RpcErrorCode::ProtocolError => "ProtocolError"@,
        RpcErrorCode::RpcFrameworkError => "RpcFrameworkError"@,
        RpcErrorCode::SecurityError => "SecurityError"@,
        RpcErrorCode::TypeConstraintViolation => "TypeConstraintViolation"@,
    }
}

/// The code a received wire spelling names; anything unknown is a `GenericError`.
pub open spec fn spec_code_from_wire(code: Seq<char>) -> RpcErrorCode {
    if code == "FormatViolation"@ {
        RpcErrorCode::FormatViolation
    } else if code == "InternalError"@ {
        RpcErrorCode::InternalError
    } else if code == "MessageTypeNotSupported"@ {
        RpcErrorCode::MessageTypeNotSupported
    } else if code == "NotImplemented"@ {
        RpcErrorCode::NotImplemented
    } else if code == "NotSupported"@ {
        RpcErrorCode::NotSupported
    } else if code == "OccurrenceConstraintViolation"@ {
        RpcErrorCode::OccurrenceConstraintViolation
    } else if code == "PropertyConstraintViolation"@ {
        RpcErrorCode::PropertyConstraintViolation
    } else if code == "ProtocolError"@ {
        RpcErrorCode::ProtocolError
    } else if code == "RpcFrameworkError"@ {
        RpcErrorCode::RpcFrameworkError
    } else if code == "SecurityError"@ {
        RpcErrorCode::SecurityError
    } else if code == "TypeConstraintViolation"@ {
        RpcErrorCode::TypeConstraintViolation
    } else {
        RpcErrorCode::GenericError
    }
}

/// The exact wire spelling of `code`.
pub fn wire_code(code: RpcErrorCode) -> (s: &'static str)
    ensures
        s@ == spec_wire_code(code),
{
    match code {
        RpcErrorCode::FormatViolation => "FormatViolation",
        RpcErrorCode::GenericError => "GenericError",
        RpcErrorCode::InternalError => "InternalError",
        RpcErrorCode::MessageTypeNotSupported => "MessageTypeNotSupported",
        RpcErrorCode::NotImplemented => "NotImplemented",
        RpcErrorCode::NotSupported => "NotSupported",
        RpcErrorCode::OccurrenceConstraintViolation => "OccurrenceConstraintViolation",
        RpcErrorCode::PropertyConstraintViolation => "PropertyConstraintViolation",
        RpcErrorCode::ProtocolError => "ProtocolError",
        RpcErrorCode::RpcFrameworkError => "RpcFrameworkError",
        RpcErrorCode::SecurityError => "SecurityError",
        RpcErrorCode::TypeConstraintViolation => "TypeConstraintViolation",
    }
}

/// The code a received wire spelling names; anything unknown is a `GenericError`.
pub fn code_from_wire(code: &str) -> (c: RpcErrorCode)
    ensures
        c == spec_code_from_wire(code@),
{
    if same_text(code, "FormatViolation") {
        RpcErrorCode::FormatViolation
    } else if same_text(code, "InternalError") {
        RpcErrorCode::InternalError
    } else if same_text(code, "MessageTypeNotSupported") {
        RpcErrorCode::MessageTypeNotSupported
    } else if same_text(code, "NotImplemented") {
        RpcErrorCode::NotImplemented
    } else if same_text(code, "NotSupported") {
        RpcErrorCode::NotSupported
    } else if same_text(code, "OccurrenceConstraintViolation") {
        RpcErrorCode::OccurrenceConstraintViolation
    } else if same_text(code, "PropertyConstraintViolation") {
        RpcErrorCode::PropertyConstraintViolation
    } else if same_text(code, "ProtocolError") {
        RpcErrorCode::ProtocolError
    } else if same_text(code, "RpcFrameworkError") {
        RpcErrorCode::RpcFrameworkError
    } else if same_text(code, "SecurityError") {
        RpcErrorCode::SecurityError
    } else if same_text(code, "TypeConstraintViolation") {
        RpcErrorCode::TypeConstraintViolation
    } else {
        RpcErrorCode::GenericError
    }
}

/// Every code survives the trip to the wire and back.
pub proof fn lemma_wire_code_round_trip(code: RpcErrorCode)
    ensures
        spec_code_from_wire(spec_wire_code(code)) == code,
{
    reveal_strlit("FormatViolation");
    reveal_strlit("GenericError");
    reveal_strlit("InternalError");
    reveal_strlit("MessageTypeNotSupported");
    reveal_strlit("NotImplemented");
    reveal_strlit("NotSupported");
    reveal_strlit("OccurrenceConstraintViolation");
    reveal_strlit("PropertyConstraintViolation");
    reveal_strlit("ProtocolError");
    reveal_strlit("RpcFrameworkError");
    reveal_strlit("SecurityError");
    reveal_strlit("TypeConstraintViolation");
    assert("FormatViolation"@ != "GenericError"@) by { assert("FormatViolation"@.len() != "GenericError"@.len()); }
    assert("FormatViolation"@ != "InternalError"@) by { assert("FormatViolation"@.len() != "InternalError"@.len()); }
    assert("FormatViolation"@ != "MessageTypeNotSupported"@) by { assert("FormatViolation"@.len() != "MessageTypeNotSupported"@.len()); }
    assert("FormatViolation"@ != "NotImplemented"@) by { assert("FormatViolation"@.len() != "NotImplemented"@.len()); }
    assert("FormatViolation"@ != "NotSupported"@) by { assert("FormatViolation"@.len() != "NotSupported"@.len()); }
    assert("FormatViolation"@ != "OccurrenceConstraintViolation"@) by { assert("FormatViolation"@.len() != "OccurrenceConstraintViolation"@.len()); }
    assert("FormatViolation"@ != "PropertyConstraintViolation"@) by { assert("FormatViolation"@.len() != "PropertyConstraintViolation"@.len()); }
    assert("FormatViolation"@ != "ProtocolError"@) by { assert("FormatViolation"@.len() != "ProtocolError"@.len()); }
    assert("FormatViolation"@ != "RpcFrameworkError"@) by { assert("FormatViolation"@.len() != "RpcFrameworkError"@.len()); }
    assert("FormatViolation"@ != "SecurityError"@) by { assert("FormatViolation"@.len() != "SecurityError"@.len()); }
    assert("FormatViolation"@ != "TypeConstraintViolation"@) by { assert("FormatViolation"@.len() != "TypeConstraintViolation"@.len()); }
    assert("GenericError"@ != "InternalError"@) by { assert("GenericError"@.len() != "InternalError"@.len()); }
    assert("GenericError"@ != "MessageTypeNotSupported"@) by { assert("GenericError"@.len() != "MessageTypeNotSupported"@.len()); }
    assert("GenericError"@ != "NotImplemented"@) by { assert("GenericError"@.len() != "NotImplemented"@.len()); }
    assert("GenericError"@ != "NotSupported"@) by { assert("GenericError"@[0] != "NotSupported"@[0]); }
    assert("GenericError"@ != "OccurrenceConstraintViolation"@) by { assert("GenericError"@.len() != "OccurrenceConstraintViolation"@.len()); }
    assert("GenericError"@ != "PropertyConstraintViolation"@) by { assert("GenericError"@.len() != "PropertyConstraintViolation"@.len()); }
    assert("GenericError"@ != "ProtocolError"@) by { assert("GenericError"@.len() != "ProtocolError"@.len()); }
    assert("GenericError"@ != "RpcFrameworkError"@) by { assert("GenericError"@.len() != "RpcFrameworkError"@.len()); }
    assert("GenericError"@ != "SecurityError"@) by { assert("GenericError"@.len() != "SecurityError"@.len()); }
    assert("GenericError"@ != "TypeConstraintViolation"@) by { assert("GenericError"@.len() != "TypeConstraintViolation"@.len()); }
    assert("InternalError"@ != "MessageTypeNotSupported"@) by { assert("InternalError"@.len() != "MessageTypeNotSupported"@.len()); }
    assert("InternalError"@ != "NotImplemented"@) by { assert("InternalError"@.len() != "NotImplemented"@.len()); }
    assert("InternalError"@ != "NotSupported"@) by { assert("InternalError"@.len() != "NotSupported"@.len()); }
    assert("InternalError"@ != "OccurrenceConstraintViolation"@) by { assert("InternalError"@.len() != "OccurrenceConstraintViolation"@.len()); }
    assert("InternalError"@ != "PropertyConstraintViolation"@) by { assert("InternalError"@.len() != "PropertyConstraintViolation"@.len()); }
    assert("InternalError"@ != "ProtocolError"@) by { assert("InternalError"@[0] != "ProtocolError"@[0]); }
    assert("InternalError"@ != "RpcFrameworkError"@) by { assert("InternalError"@.len() != "RpcFrameworkError"@.len()); }
    assert("InternalError"@ != "SecurityError"@) by { assert("InternalError"@[0] != "SecurityError"@[0]); }
    assert("InternalError"@ != "TypeConstraintViolation"@) by { assert("InternalError"@.len() != "TypeConstraintViolation"@.len()); }
    assert("MessageTypeNotSupported"@ != "NotImplemented"@) by { assert("MessageTypeNotSupported"@.len() != "NotImplemented"@.len()); }
    assert("MessageTypeNotSupported"@ != "NotSupported"@) by { assert("MessageTypeNotSupported"@.len() != "NotSupported"@.len()); }
    assert("MessageTypeNotSupported"@ != "OccurrenceConstraintViolation"@) by { assert("MessageTypeNotSupported"@.len() != "OccurrenceConstraintViolation"@.len()); }
    assert("MessageTypeNotSupported"@ != "PropertyConstraintViolation"@) by { assert("MessageTypeNotSupported"@.len() != "PropertyConstraintViolation"@.len()); }
    assert("MessageTypeNotSupported"@ != "ProtocolError"@) by { assert("MessageTypeNotSupported"@.len() != "ProtocolError"@.len()); }
    assert("MessageTypeNotSupported"@ != "RpcFrameworkError"@) by { assert("MessageTypeNotSupported"@.len() != "RpcFrameworkError"@.len()); }
    assert("MessageTypeNotSupported"@ != "SecurityError"@) by { assert("MessageTypeNotSupported"@.len() != "SecurityError"@.len()); }
    assert("MessageTypeNotSupported"@ != "TypeConstraintViolation"@) by { assert("MessageTypeNotSupported"@[0] != "TypeConstraintViolation"@[0]); }
    assert("NotImplemented"@ != "NotSupported"@) by { assert("NotImplemented"@.len() != "NotSupported"@.len()); }
    assert("NotImplemented"@ != "OccurrenceConstraintViolation"@) by { assert("NotImplemented"@.len() != "OccurrenceConstraintViolation"@.len()); }
    assert("NotImplemented"@ != "PropertyConstraintViolation"@) by { assert("NotImplemented"@.len() != "PropertyConstraintViolation"@.len()); }
    assert("NotImplemented"@ != "ProtocolError"@) by { assert("NotImplemented"@.len() != "ProtocolError"@.len()); }
    assert("NotImplemented"@ != "RpcFrameworkError"@) by { assert("NotImplemented"@.len() != "RpcFrameworkError"@.len()); }
    assert("NotImplemented"@ != "SecurityError"@) by { assert("NotImplemented"@.len() != "SecurityError"@.len()); }
    assert("NotImplemented"@ != "TypeConstraintViolation"@) by { assert("NotImplemented"@.len() != "TypeConstraintViolation"@.len()); }
    assert("NotSupported"@ != "OccurrenceConstraintViolation"@) by { assert("NotSupported"@.len() != "OccurrenceConstraintViolation"@.len()); }
    assert("NotSupported"@ != "PropertyConstraintViolation"@) by { assert("NotSupported"@.len() != "PropertyConstraintViolation"@.len()); }
    assert("NotSupported"@ != "ProtocolError"@) by { assert("NotSupported"@.len() != "ProtocolError"@.len()); }
    assert("NotSupported"@ != "RpcFrameworkError"@) by { assert("NotSupported"@.len() != "RpcFrameworkError"@.len()); }
    assert("NotSupported"@ != "SecurityError"@) by { assert("NotSupported"@.len() != "SecurityError"@.len()); }
    assert("NotSupported"@ != "TypeConstraintViolation"@) by { assert("NotSupported"@.len() != "TypeConstraintViolation"@.len()); }
    assert("OccurrenceConstraintViolation"@ != "PropertyConstraintViolation"@) by { assert("OccurrenceConstraintViolation"@.len() != "PropertyConstraintViolation"@.len()); }
    assert("OccurrenceConstraintViolation"@ != "ProtocolError"@) by { assert("OccurrenceConstraintViolation"@.len() != "ProtocolError"@.len()); }
    assert("OccurrenceConstraintViolation"@ != "RpcFrameworkError"@) by { assert("OccurrenceConstraintViolation"@.len() != "RpcFrameworkError"@.len()); }
    assert("OccurrenceConstraintViolation"@ != "SecurityError"@) by { assert("OccurrenceConstraintViolation"@.len() != "SecurityError"@.len()); }
    assert("OccurrenceConstraintViolation"@ != "TypeConstraintViolation"@) by { assert("OccurrenceConstraintViolation"@.len() != "TypeConstraintViolation"@.len()); }
    assert("PropertyConstraintViolation"@ != "ProtocolError"@) by { assert("PropertyConstraintViolation"@.len() != "ProtocolError"@.len()); }
    assert("PropertyConstraintViolation"@ != "RpcFrameworkError"@) by { assert("PropertyConstraintViolation"@.len() != "RpcFrameworkError"@.len()); }
    assert("PropertyConstraintViolation"@ != "SecurityError"@) by { assert("PropertyConstraintViolation"@.len() != "SecurityError"@.len()); }
    assert("PropertyConstraintViolation"@ != "TypeConstraintViolation"@) by { assert("PropertyConstraintViolation"@.len() != "TypeConstraintViolation"@.len()); }
    assert("ProtocolError"@ != "RpcFrameworkError"@) by { assert("ProtocolError"@.len() != "RpcFrameworkError"@.len()); }
    assert("ProtocolError"@ != "SecurityError"@) by { assert("ProtocolError"@[0] != "SecurityError"@[0]); }
    assert("ProtocolError"@ != "TypeConstraintViolation"@) by { assert("ProtocolError"@.len() != "TypeConstraintViolation"@.len()); }
    assert("RpcFrameworkError"@ != "SecurityError"@) by { assert("RpcFrameworkError"@.len() != "SecurityError"@.len()); }
    assert("RpcFrameworkError"@ != "TypeConstraintViolation"@) by { assert("RpcFrameworkError"@.len() != "TypeConstraintViolation"@.len()); }
    assert("SecurityError"@ != "TypeConstraintViolation"@) by { assert("SecurityError"@.len() != "TypeConstraintViolation"@.len()); }
}

/// Each code goes on the wire as its own name from the OCPP-J 2.x RPC framework error
/// codes (two-`r` `OccurrenceConstraintViolation`), and each name read off the wire is that
/// code.
pub proof fn lemma_wire_codes_are_their_names()
    ensures
        spec_wire_code(RpcErrorCode::FormatViolation) == "FormatViolation"@,
        spec_wire_code(RpcErrorCode::GenericError) == "GenericError"@,
        spec_wire_code(RpcErrorCode::InternalError) == "InternalError"@,
        spec_wire_code(RpcErrorCode::MessageTypeNotSupported) == "MessageTypeNotSupported"@,
        spec_wire_code(RpcErrorCode::NotImplemented) == "NotImplemented"@,
        spec_wire_code(RpcErrorCode::NotSupported) == "NotSupported"@,
        spec_wire_code(RpcErrorCode::OccurrenceConstraintViolation) == "OccurrenceConstraintViolation"@,
        spec_wire_code(RpcErrorCode::PropertyConstraintViolation) == "PropertyConstraintViolation"@,
        spec_wire_code(RpcErrorCode::ProtocolError) == "ProtocolError"@,
        spec_wire_code(RpcErrorCode::RpcFrameworkError) == "RpcFrameworkError"@,
        spec_wire_code(RpcErrorCode::SecurityError) == "SecurityError"@,
        spec_wire_code(RpcErrorCode::TypeConstraintViolation) == "TypeConstraintViolation"@,
        spec_code_from_wire("FormatViolation"@) == RpcErrorCode::FormatViolation,
        spec_code_from_wire("GenericError"@) == RpcErrorCode::GenericError,
        spec_code_from_wire("InternalError"@) == RpcErrorCode::InternalError,
        spec_code_from_wire("MessageTypeNotSupported"@) == RpcErrorCode::MessageTypeNotSupported,
        spec_code_from_wire("NotImplemented"@) == RpcErrorCode::NotImplemented,
        spec_code_from_wire("NotSupported"@) == RpcErrorCode::NotSupported,
        spec_code_from_wire("OccurrenceConstraintViolation"@) == RpcErrorCode::OccurrenceConstraintViolation,
        spec_code_from_wire("PropertyConstraintViolation"@) == RpcErrorCode::PropertyConstraintViolation,
        spec_code_from_wire("ProtocolError"@) == RpcErrorCode::ProtocolError,
        spec_code_from_wire("RpcFrameworkError"@) == RpcErrorCode::RpcFrameworkError,
        spec_code_from_wire("SecurityError"@) == RpcErrorCode::SecurityError,
        spec_code_from_wire("TypeConstraintViolation"@) == RpcErrorCode::TypeConstraintViolation,
{
    lemma_wire_code_round_trip(RpcErrorCode::FormatViolation);
    lemma_wire_code_round_trip(RpcErrorCode::GenericError);
    lemma_wire_code_round_trip(RpcErrorCode::InternalError);
    lemma_wire_code_round_trip(RpcErrorCode::MessageTypeNotSupported);
    lemma_wire_code_round_trip(RpcErrorCode::NotImplemented);
    lemma_wire_code_round_trip(RpcErrorCode::NotSupported);
    lemma_wire_code_round_trip(RpcErrorCode::OccurrenceConstraintViolation);
    lemma_wire_code_round_trip(RpcErrorCode::PropertyConstraintViolation);
    lemma_wire_code_round_trip(RpcErrorCode::ProtocolError);
    lemma_wire_code_round_trip(RpcErrorCode::RpcFrameworkError);
    lemma_wire_code_round_trip(RpcErrorCode::SecurityError);
    lemma_wire_code_round_trip(RpcErrorCode::TypeConstraintViolation);
}

/// An OCPP 2.0.1 CALLERROR: the RPC framework error code, with the free-text description and the
/// details a CALLERROR frame carries alongside it.
#[derive(Debug, Clone)]
pub struct OCPP2_0_1Error {
    pub code: RpcErrorCode,
    pub description: String,
    pub details: serde_json::Value,
}

impl OCPP2_0_1Error {
    fn with_empty_details(code: RpcErrorCode, description: String) -> (e: Self)
        ensures
            e.code == code,
            e.description == description,
            e.details == json_empty_object(),
    {
        OCPP2_0_1Error { code, description, details: empty_object() }
    }

    /// The wire spelling of this error's code.
    pub fn code(&self) -> (s: &'static str)
        ensures
            s@ == spec_wire_code(self.code),
    {
        wire_code(self.code)
    }

    /// The free-text description.
    pub fn description(&self) -> (s: &str)
        ensures
            s@ == self.description@,
    {
        self.description.as_str()
    }

    /// How the error reads to a person: `<code>: <description>`.
    pub fn display_text(&self) -> (s: String)
        ensures
            s@ == spec_wire_code(self.code) + ": "@ + self.description@,
    {
        concat3(wire_code(self.code), ": ", self.description.as_str())
    }

    /// The details carried alongside.
    pub fn details(&self) -> (d: &serde_json::Value)
        ensures
            *d == self.details,
    {
        &self.details
    }

    /// The error answering a CALL for an action nobody handles.
    pub fn not_implemented(action: &str) -> (e: Self)
        ensures
            e.code == RpcErrorCode::NotImplemented,
            e.description@ == spec_not_implemented_text(action@),
            e.details == json_empty_object(),
    {
        Self::with_empty_details(RpcErrorCode::NotImplemented, not_implemented_text(action))
    }

    /// The error answering a payload that broke its schema: a property violation maps to
    /// `PropertyConstraintViolation`, an occurrence violation to `OccurrenceConstraintViolation`; the
    /// description is the violation's message, and the details are the object
    /// `{"path": <rendered path>}` (see `validation::render_path`), so a peer can match on the
    /// path without parsing prose.
    pub fn from_violation(violation: Violation) -> (e: Self)
        ensures
            e.code == (match violation.class {
                ConstraintClass::Property => RpcErrorCode::PropertyConstraintViolation,
                ConstraintClass::Occurrence => RpcErrorCode::OccurrenceConstraintViolation,
            }),
            e.description == violation.message,
            e.details == json_object_of_texts(
                seq![("path"@, spec_render_path(violation.path_truncated, violation.path@))],
            ),
    {
        let code = match violation.class {
            ConstraintClass::Property => RpcErrorCode::PropertyConstraintViolation,
            ConstraintClass::Occurrence => RpcErrorCode::OccurrenceConstraintViolation,
        };
        let path = render_path(violation.path_truncated, &violation.path);
        OCPP2_0_1Error { code, description: violation.message, details: object_with_text("path", path) }
    }

    /// The error answering an `ocpp_types` validation failure: the violation it reports (see
    /// `validation::violation_of`), answered as `from_violation` answers it.
    pub fn from_validation_error(error: &ocpp_types::validate::ValidationError) -> (e: Self)
        ensures
            e.code == (match spec_violation_class(*error) {
                ConstraintClass::Property => RpcErrorCode::PropertyConstraintViolation,
                ConstraintClass::Occurrence => RpcErrorCode::OccurrenceConstraintViolation,
            }),
            e.description@ == spec_violation_message(*error),
            e.details == json_object_of_texts(
                seq![("path"@, spec_render_path(validation_error_truncated(*error), validation_error_path(*error)))],
            ),
    {
        Self::from_violation(violation_of(error))
    }

    /// The error a received CALLERROR frame carries.
    pub fn from_wire(code: &str, description: &str, details: serde_json::Value) -> (e: Self)
        ensures
            e.code == spec_code_from_wire(code@),
            e.description@ == description@,
            e.details == details,
    {
        OCPP2_0_1Error {
            code: code_from_wire(code),
            description: String::from_str(description),
            details,
        }
    }

    /// A `NotImplemented` error with this description and empty details.
    pub fn new_not_implemented(description: &str) -> (e: Self)
        ensures
            e.code == RpcErrorCode::NotImplemented,
            e.description@ == description@,
            e.details == json_empty_object(),
    {
        Self::with_empty_details(RpcErrorCode::NotImplemented, String::from_str(description))
    }

    /// A `SecurityError` with this description and empty details.
    pub fn new_security_error(description: &str) -> (e: Self)
        ensures
            e.code == RpcErrorCode::SecurityError,
            e.description@ == description@,
            e.details == json_empty_object(),
    {
        Self::with_empty_details(RpcErrorCode::SecurityError, String::from_str(description))
    }

    /// A `FormatViolation` with this description and empty details.
    pub fn new_format_violation(description: &str) -> (e: Self)
        ensures
            e.code == RpcErrorCode::FormatViolation,
            e.description@ == description@,
            e.details == json_empty_object(),
    {
        Self::with_empty_details(RpcErrorCode::FormatViolation, String::from_str(description))
    }

    /// An `InternalError` with this description and empty details.
    pub fn new_internal_str(description: &str) -> (e: Self)
        ensures
            e.code == RpcErrorCode::InternalError,
            e.description@ == description@,
            e.details == json_empty_object(),
    {
        Self::with_empty_details(RpcErrorCode::InternalError, String::from_str(description))
    }

    /// An `InternalError` described by `error`'s text, with empty details.
    pub fn new_internal(error: &String) -> (e: Self)
        ensures
            e.code == RpcErrorCode::InternalError,
            e.description@ == error@,
            e.details == json_empty_object(),
    {
        Self::with_empty_details(RpcErrorCode::InternalError, error.clone())
    }
}

} // verus!
