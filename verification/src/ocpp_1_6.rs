//! OCPP 1.6J: its CALLERROR codes and error type.

use vstd::prelude::*;
use crate::json::{empty_object, json_empty_object, json_object_of_texts, object_with_text};
use crate::validation::{
    ConstraintClass, Violation, render_path, spec_render_path, violation_of, spec_violation_class, spec_violation_message,
    validation_error_path, validation_error_truncated,
};
use crate::text::{concat3, not_implemented_text, same_text, spec_not_implemented_text};

verus! {

/// The RPC framework error codes of OCPP-J 1.6 (Table 7 of its specification).
#[derive(Debug, Clone, Copy, PartialEq, Eq)]
pub enum RpcErrorCode {
    NotImplemented,
    NotSupported,
    InternalError,
    ProtocolError,
    SecurityError,
    FormationViolation,
    PropertyConstraintViolation,
    OccurenceConstraintViolation,
    TypeConstraintViolation,
    GenericError,
}

/// The exact wire spelling of each code. 1.6J spells `OccurenceConstraintViolation` with one
/// `r`.
pub open spec fn spec_wire_code(code: RpcErrorCode) -> Seq<char> {
    match code {
        RpcErrorCode::NotImplemented => "NotImplemented"@,
        RpcErrorCode::NotSupported => "NotSupported"@,
        RpcErrorCode::InternalError => "InternalError"@,
        RpcErrorCode::ProtocolError => "ProtocolError"@,
        RpcErrorCode::SecurityError => "SecurityError"@,
        RpcErrorCode::FormationViolation => "FormationViolation"@,
        RpcErrorCode::PropertyConstraintViolation => "PropertyConstraintViolation"@,
        RpcErrorCode::OccurenceConstraintViolation => "OccurenceConstraintViolation"@,
        RpcErrorCode::TypeConstraintViolation => "TypeConstraintViolation"@,
        RpcErrorCode::GenericError => "GenericError"@,
    }
}

/// The code a received wire spelling names; anything unknown is a `GenericError`.
pub open spec fn spec_code_from_wire(code: Seq<char>) -> RpcErrorCode {
    if code == "NotImplemented"@ {
        RpcErrorCode::NotImplemented
    } else if code == "NotSupported"@ {
        RpcErrorCode::NotSupported
    } else if code == "InternalError"@ {
        RpcErrorCode::InternalError
    } else if code == "ProtocolError"@ {
        RpcErrorCode::ProtocolError
    } else if code == "SecurityError"@ {
        RpcErrorCode::SecurityError
    } else if code == "FormationViolation"@ {
        RpcErrorCode::FormationViolation
    } else if code == "PropertyConstraintViolation"@ {
        RpcErrorCode::PropertyConstraintViolation
    } else if code == "OccurenceConstraintViolation"@ {
        RpcErrorCode::OccurenceConstraintViolation
    } else if code == "TypeConstraintViolation"@ {
        RpcErrorCode::TypeConstraintViolation
    } else {
        RpcErrorCode::GenericError
    }
}

/// The exact wire spelling of `code`.
pub fn wire_code(code: RpcErrorCode) -> (s: &'static str)
    ensures
        s@ == spec_wire_code(code),
{
    match code {
        RpcErrorCode::NotImplemented => "NotImplemented",
        RpcErrorCode::NotSupported => "NotSupported",
        RpcErrorCode::InternalError => "InternalError",
        RpcErrorCode::ProtocolError => "ProtocolError",
        RpcErrorCode::SecurityError => "SecurityError",
        RpcErrorCode::FormationViolation => "FormationViolation",
        RpcErrorCode::PropertyConstraintViolation => "PropertyConstraintViolation",
        RpcErrorCode::OccurenceConstraintViolation => "OccurenceConstraintViolation",
        RpcErrorCode::TypeConstraintViolation => "TypeConstraintViolation",
        RpcErrorCode::GenericError => "GenericError",
    }
}

/// The code a received wire spelling names; anything unknown is a `GenericError`.
pub fn code_from_wire(code: &str) -> (c: RpcErrorCode)
    ensures
        c == spec_code_from_wire(code@),
{
    if same_text(code, "NotImplemented") {
        RpcErrorCode::NotImplemented
    } else if same_text(code, "NotSupported") {
        RpcErrorCode::NotSupported
    } else if same_text(code, "InternalError") {
        RpcErrorCode::InternalError
    } else if same_text(code, "ProtocolError") {
        RpcErrorCode::ProtocolError
    } else if same_text(code, "SecurityError") {
        RpcErrorCode::SecurityError
    } else if same_text(code, "FormationViolation") {
        RpcErrorCode::FormationViolation
    } else if same_text(code, "PropertyConstraintViolation") {
        RpcErrorCode::PropertyConstraintViolation
    } else if same_text(code, "OccurenceConstraintViolation") {
        RpcErrorCode::OccurenceConstraintViolation
    } else if same_text(code, "TypeConstraintViolation") {
        RpcErrorCode::TypeConstraintViolation
    } else {
        RpcErrorCode::GenericError
    }
}

/// Every code survives the trip to the wire and back.
pub proof fn lemma_wire_code_round_trip(code: RpcErrorCode)
    ensures
        spec_code_from_wire(spec_wire_code(code)) == code,
{
    reveal_strlit("NotImplemented");
    reveal_strlit("NotSupported");
    reveal_strlit("InternalError");
    reveal_strlit("ProtocolError");
    reveal_strlit("SecurityError");
    reveal_strlit("FormationViolation");
    reveal_strlit("PropertyConstraintViolation");
    reveal_strlit("OccurenceConstraintViolation");
    reveal_strlit("TypeConstraintViolation");
    reveal_strlit("GenericError");
    assert("NotImplemented"@ != "NotSupported"@) by { assert("NotImplemented"@.len() != "NotSupported"@.len()); }
    assert("NotImplemented"@ != "InternalError"@) by { assert("NotImplemented"@.len() != "InternalError"@.len()); }
    assert("NotImplemented"@ != "ProtocolError"@) by { assert("NotImplemented"@.len() != "ProtocolError"@.len()); }
    assert("NotImplemented"@ != "SecurityError"@) by { assert("NotImplemented"@.len() != "SecurityError"@.len()); }
    assert("NotImplemented"@ != "FormationViolation"@) by { assert("NotImplemented"@.len() != "FormationViolation"@.len()); }
    assert("NotImplemented"@ != "PropertyConstraintViolation"@) by { assert("NotImplemented"@.len() != "PropertyConstraintViolation"@.len()); }
    assert("NotImplemented"@ != "OccurenceConstraintViolation"@) by { assert("NotImplemented"@.len() != "OccurenceConstraintViolation"@.len()); }
    assert("NotImplemented"@ != "TypeConstraintViolation"@) by { assert("NotImplemented"@.len() != "TypeConstraintViolation"@.len()); }
    assert("NotImplemented"@ != "GenericError"@) by { assert("NotImplemented"@.len() != "GenericError"@.len()); }
    assert("NotSupported"@ != "InternalError"@) by { assert("NotSupported"@.len() != "InternalError"@.len()); }
    assert("NotSupported"@ != "ProtocolError"@) by { assert("NotSupported"@.len() != "ProtocolError"@.len()); }
    assert("NotSupported"@ != "SecurityError"@) by { assert("NotSupported"@.len() != "SecurityError"@.len()); }
    assert("NotSupported"@ != "FormationViolation"@) by { assert("NotSupported"@.len() != "FormationViolation"@.len()); }
    assert("NotSupported"@ != "PropertyConstraintViolation"@) by { assert("NotSupported"@.len() != "PropertyConstraintViolation"@.len()); }
    assert("NotSupported"@ != "OccurenceConstraintViolation"@) by { assert("NotSupported"@.len() != "OccurenceConstraintViolation"@.len()); }
    assert("NotSupported"@ != "TypeConstraintViolation"@) by { assert("NotSupported"@.len() != "TypeConstraintViolation"@.len()); }
    assert("NotSupported"@ != "GenericError"@) by { assert("NotSupported"@[0] != "GenericError"@[0]); }
    assert("InternalError"@ != "ProtocolError"@) by { assert("InternalError"@[0] != "ProtocolError"@[0]); }
    assert("InternalError"@ != "SecurityError"@) by { assert("InternalError"@[0] != "SecurityError"@[0]); }
    assert("InternalError"@ != "FormationViolation"@) by { assert("InternalError"@.len() != "FormationViolation"@.len()); }
    assert("InternalError"@ != "PropertyConstraintViolation"@) by { assert("InternalError"@.len() != "PropertyConstraintViolation"@.len()); }
    assert("InternalError"@ != "OccurenceConstraintViolation"@) by { assert("InternalError"@.len() != "OccurenceConstraintViolation"@.len()); }
    assert("InternalError"@ != "TypeConstraintViolation"@) by { assert("InternalError"@.len() != "TypeConstraintViolation"@.len()); }
    assert("InternalError"@ != "GenericError"@) by { assert("InternalError"@.len() != "GenericError"@.len()); }
    assert("ProtocolError"@ != "SecurityError"@) by { assert("ProtocolError"@[0] != "SecurityError"@[0]); }
    assert("ProtocolError"@ != "FormationViolation"@) by { assert("ProtocolError"@.len() != "FormationViolation"@.len()); }
    assert("ProtocolError"@ != "PropertyConstraintViolation"@) by { assert("ProtocolError"@.len() != "PropertyConstraintViolation"@.len()); }
    assert("ProtocolError"@ != "OccurenceConstraintViolation"@) by { assert("ProtocolError"@.len() != "OccurenceConstraintViolation"@.len()); }
    assert("ProtocolError"@ != "TypeConstraintViolation"@) by { assert("ProtocolError"@.len() != "TypeConstraintViolation"@.len()); }
    assert("ProtocolError"@ != "GenericError"@) by { assert("ProtocolError"@.len() != "GenericError"@.len()); }
    assert("SecurityError"@ != "FormationViolation"@) by { assert("SecurityError"@.len() != "FormationViolation"@.len()); }
    assert("SecurityError"@ != "PropertyConstraintViolation"@) by { assert("SecurityError"@.len() != "PropertyConstraintViolation"@.len()); }
    assert("SecurityError"@ != "OccurenceConstraintViolation"@) by { assert("SecurityError"@.len() != "OccurenceConstraintViolation"@.len()); }
    assert("SecurityError"@ != "TypeConstraintViolation"@) by { assert("SecurityError"@.len() != "TypeConstraintViolation"@.len()); }
    assert("SecurityError"@ != "GenericError"@) by { assert("SecurityError"@.len() != "GenericError"@.len()); }
    assert("FormationViolation"@ != "PropertyConstraintViolation"@) by { assert("FormationViolation"@.len() != "PropertyConstraintViolation"@.len()); }
    assert("FormationViolation"@ != "OccurenceConstraintViolation"@) by { assert("FormationViolation"@.len() != "OccurenceConstraintViolation"@.len()); }
    assert("FormationViolation"@ != "TypeConstraintViolation"@) by { assert("FormationViolation"@.len() != "TypeConstraintViolation"@.len()); }
    assert("FormationViolation"@ != "GenericError"@) by { assert("FormationViolation"@.len() != "GenericError"@.len()); }
    assert("PropertyConstraintViolation"@ != "OccurenceConstraintViolation"@) by { assert("PropertyConstraintViolation"@.len() != "OccurenceConstraintViolation"@.len()); }
    assert("PropertyConstraintViolation"@ != "TypeConstraintViolation"@) by { assert("PropertyConstraintViolation"@.len() != "TypeConstraintViolation"@.len()); }
    assert("PropertyConstraintViolation"@ != "GenericError"@) by { assert("PropertyConstraintViolation"@.len() != "GenericError"@.len()); }
    assert("OccurenceConstraintViolation"@ != "TypeConstraintViolation"@) by { assert("OccurenceConstraintViolation"@.len() != "TypeConstraintViolation"@.len()); }
    assert("OccurenceConstraintViolation"@ != "GenericError"@) by { assert("OccurenceConstraintViolation"@.len() != "GenericError"@.len()); }
    assert("TypeConstraintViolation"@ != "GenericError"@) by { assert("TypeConstraintViolation"@.len() != "GenericError"@.len()); }
}

/// Each code goes on the wire as its own name from OCPP-J 1.6 Table 7 (with the
/// specification's one-`r` `OccurenceConstraintViolation`), and each name read off the wire
/// is that code.
pub proof fn lemma_wire_codes_are_their_names()
    ensures
        spec_wire_code(RpcErrorCode::NotImplemented) == "NotImplemented"@,
        spec_wire_code(RpcErrorCode::NotSupported) == "NotSupported"@,
        spec_wire_code(RpcErrorCode::InternalError) == "InternalError"@,
        spec_wire_code(RpcErrorCode::ProtocolError) == "ProtocolError"@,
        spec_wire_code(RpcErrorCode::SecurityError) == "SecurityError"@,
        spec_wire_code(RpcErrorCode::FormationViolation) == "FormationViolation"@,
        spec_wire_code(RpcErrorCode::PropertyConstraintViolation) == "PropertyConstraintViolation"@,
        spec_wire_code(RpcErrorCode::OccurenceConstraintViolation) == "OccurenceConstraintViolation"@,
        spec_wire_code(RpcErrorCode::TypeConstraintViolation) == "TypeConstraintViolation"@,
        spec_wire_code(RpcErrorCode::GenericError) == "GenericError"@,
        spec_code_from_wire("NotImplemented"@) == RpcErrorCode::NotImplemented,
        spec_code_from_wire("NotSupported"@) == RpcErrorCode::NotSupported,
        spec_code_from_wire("InternalError"@) == RpcErrorCode::InternalError,
        spec_code_from_wire("ProtocolError"@) == RpcErrorCode::ProtocolError,
        spec_code_from_wire("SecurityError"@) == RpcErrorCode::SecurityError,
        spec_code_from_wire("FormationViolation"@) == RpcErrorCode::FormationViolation,
        spec_code_from_wire("PropertyConstraintViolation"@) == RpcErrorCode::PropertyConstraintViolation,
        spec_code_from_wire("OccurenceConstraintViolation"@) == RpcErrorCode::OccurenceConstraintViolation,
        spec_code_from_wire("TypeConstraintViolation"@) == RpcErrorCode::TypeConstraintViolation,
        spec_code_from_wire("GenericError"@) == RpcErrorCode::GenericError,
{
    lemma_wire_code_round_trip(RpcErrorCode::NotImplemented);
    lemma_wire_code_round_trip(RpcErrorCode::NotSupported);
    lemma_wire_code_round_trip(RpcErrorCode::InternalError);
    lemma_wire_code_round_trip(RpcErrorCode::ProtocolError);
    lemma_wire_code_round_trip(RpcErrorCode::SecurityError);
    lemma_wire_code_round_trip(RpcErrorCode::FormationViolation);
    lemma_wire_code_round_trip(RpcErrorCode::PropertyConstraintViolation);
    lemma_wire_code_round_trip(RpcErrorCode::OccurenceConstraintViolation);
    lemma_wire_code_round_trip(RpcErrorCode::TypeConstraintViolation);
    lemma_wire_code_round_trip(RpcErrorCode::GenericError);
}

/// An OCPP 1.6 CALLERROR: the RPC framework error code, with the free-text description and the
/// details a CALLERROR frame carries alongside it.
#[derive(Debug, Clone)]
pub struct OCPP1_6Error {
    pub code: RpcErrorCode,
    pub description: String,
    pub details: serde_json::Value,
}

impl OCPP1_6Error {
    fn with_empty_details(code: RpcErrorCode, description: String) -> (e: Self)
        ensures
            e.code == code,
            e.description == description,
            e.details == json_empty_object(),
    {
        OCPP1_6Error { code, description, details: empty_object() }
    }

    /// The wire spelling of this error's code.
    pub fn code(&self) -> (s: &'static str)
        ensures
            s@ == spec_wire_code(self.code),
    {
        wire_code(self.code)
    }

    /// The free-text description.
    pub fn description(&self) -> (s: &str)
        ensures
            s@ == self.description@,
    {
        self.description.as_str()
    }

    /// How the error reads to a person: `<code>: <description>`.
    pub fn display_text(&self) -> (s: String)
        ensures
            s@ == spec_wire_code(self.code) + ": "@ + self.description@,
    {
        concat3(wire_code(self.code), ": ", self.description.as_str())
    }

    /// The details carried alongside.
    pub fn details(&self) -> (d: &serde_json::Value)
        ensures
            *d == self.details,
    {
        &self.details
    }

    /// The error answering a CALL for an action nobody handles.
    pub fn not_implemented(action: &str) -> (e: Self)
        ensures
            e.code == RpcErrorCode::NotImplemented,
            e.description@ == spec_not_implemented_text(action@),
            e.details == json_empty_object(),
    {
        Self::with_empty_details(RpcErrorCode::NotImplemented, not_implemented_text(action))
    }

    /// The error answering a payload that broke its schema: a property violation maps to
    /// `PropertyConstraintViolation`, an occurrence violation to `OccurenceConstraintViolation`; the
    /// description is the violation's message, and the details are the object
    /// `{"path": <rendered path>}` (see `validation::render_path`), so a peer can match on the
    /// path without parsing prose.
    pub fn from_violation(violation: Violation) -> (e: Self)
        ensures
            e.code == (match violation.class {
                ConstraintClass::Property => RpcErrorCode::PropertyConstraintViolation,
                ConstraintClass::Occurrence => RpcErrorCode::OccurenceConstraintViolation,
            }),
            e.description == violation.message,
            e.details == json_object_of_texts(
                seq![("path"@, spec_render_path(violation.path_truncated, violation.path@))],
            ),
    {
        let code = match violation.class {
            ConstraintClass::Property => RpcErrorCode::PropertyConstraintViolation,
            ConstraintClass::Occurrence => RpcErrorCode::OccurenceConstraintViolation,
        };
        let path = render_path(violation.path_truncated, &violation.path);
        OCPP1_6Error { code, description: violation.message, details: object_with_text("path", path) }
    }

    /// The error answering an `ocpp_types` validation failure: the violation it reports (see
    /// `validation::violation_of`), answered as `from_violation` answers it.
    pub fn from_validation_error(error: &ocpp_types::validate::ValidationError) -> (e: Self)
        ensures
            e.code == (match spec_violation_class(*error) {
                ConstraintClass::Property => RpcErrorCode::PropertyConstraintViolation,
                ConstraintClass::Occurrence => RpcErrorCode::OccurenceConstraintViolation,
            }),
            e.description@ == spec_violation_message(*error),
            e.details == json_object_of_texts(
                seq![("path"@, spec_render_path(validation_error_truncated(*error), validation_error_path(*error)))],
            ),
    {
        Self::from_violation(violation_of(error))
    }

    /// The error a received CALLERROR frame carries.
    pub fn from_wire(code: &str, description: &str, details: serde_json::Value) -> (e: Self)
        ensures
            e.code == spec_code_from_wire(code@),
            e.description@ == description@,
            e.details == details,
    {
        OCPP1_6Error {
            code: code_from_wire(code),
            description: String::from_str(description),
            details,
        }
    }

    /// A `NotImplemented` error with this description and empty details.
    pub fn new_not_implemented(description: &str) -> (e: Self)
        ensures
            e.code == RpcErrorCode::NotImplemented,
            e.description@ == description@,
            e.details == json_empty_object(),
    {
        Self::with_empty_details(RpcErrorCode::NotImplemented, String::from_str(description))
    }

    /// A `SecurityError` with this description and empty details.
    pub fn new_security_error(description: &str) -> (e: Self)
        ensures
            e.code == RpcErrorCode::SecurityError,
            e.description@ == description@,
            e.details == json_empty_object(),
    {
        Self::with_empty_details(RpcErrorCode::SecurityError, String::from_str(description))
    }

    /// A `FormationViolation` with this description and empty details.
    pub fn new_formation_violation(description: &str) -> (e: Self)
        ensures
            e.code == RpcErrorCode::FormationViolation,
            e.description@ == description@,
            e.details == json_empty_object(),
    {
        Self::with_empty_details(RpcErrorCode::FormationViolation, String::from_str(description))
    }

    /// An `InternalError` described by `error`'s text, with empty details.
    pub fn new_internal(error: &String) -> (e: Self)
        ensures
            e.code == RpcErrorCode::InternalError,
            e.description@ == error@,
            e.details == json_empty_object(),
    {
        Self::with_empty_details(RpcErrorCode::InternalError, error.clone())
    }

    /// An `InternalError` with this description and empty details.
    pub fn new_internal_str(description: &str) -> (e: Self)
        ensures
            e.code == RpcErrorCode::InternalError,
            e.description@ == description@,
            e.details == json_empty_object(),
    {
        Self::with_empty_details(RpcErrorCode::InternalError, String::from_str(description))
    }
}

} // verus!
