//! OCPP 2.1: its error type. The RPC framework error codes are unchanged from 2.0.1.

use vstd::prelude::*;
use crate::json::{empty_object, json_empty_object, json_object_of_texts, object_with_text};
use crate::validation::{
    ConstraintClass, Violation, render_path, spec_render_path, violation_of, spec_violation_class, spec_violation_message,
    validation_error_path, validation_error_truncated,
};
use crate::text::{concat3, not_implemented_text, spec_not_implemented_text};
pub use crate::ocpp_2_0_1::{code_from_wire, spec_code_from_wire, spec_wire_code, wire_code, RpcErrorCode};

verus! {

/// An OCPP 2.1 CALLERROR: the RPC framework error code, with the free-text description and the
/// details a CALLERROR frame carries alongside it.
#[derive(Debug, Clone)]
pub struct OCPP2_1Error {
    pub code: RpcErrorCode,
    pub description: String,
    pub details: serde_json::Value,
}

impl OCPP2_1Error {
    fn with_empty_details(code: RpcErrorCode, description: String) -> (e: Self)
        ensures
            e.code == code,
            e.description == description,
            e.details == json_empty_object(),
    {
        OCPP2_1Error { code, description, details: empty_object() }
    }

    /// The wire spelling of this error's code.
    pub fn code(&self) -> (s: &'static str)
        ensures
            s@ == spec_wire_code(self.code),
    {
        wire_code(self.code)
    }

    /// The free-text description.
    pub fn description(&self) -> (s: &str)
        ensures
            s@ == self.description@,
    {
        self.description.as_str()
    }

    /// How the error reads to a person: `<code>: <description>`.
    pub fn display_text(&self) -> (s: String)
        ensures
            s@ == spec_wire_code(self.code) + ": "@ + self.description@,
    {
        concat3(wire_code(self.code), ": ", self.description.as_str())
    }

    /// The details carried alongside.
    pub fn details(&self) -> (d: &serde_json::Value)
        ensures
            *d == self.details,
    {
        &self.details
    }

    /// The error answering a CALL for an action nobody handles.
    pub fn not_implemented(action: &str) -> (e: Self)
        ensures
            e.code == RpcErrorCode::NotImplemented,
            e.description@ == spec_not_implemented_text(action@),
            e.details == json_empty_object(),
    {
        Self::with_empty_details(RpcErrorCode::NotImplemented, not_implemented_text(action))
    }

    /// The error answering a payload that broke its schema: a property violation maps to
    /// `PropertyConstraintViolation`, an occurrence violation to `OccurrenceConstraintViolation`; the
    /// description is the violation's message, and the details are the object
    /// `{"path": <rendered path>}` (see `validation::render_path`), so a peer can match on the
    /// path without parsing prose.
    pub fn from_violation(violation: Violation) -> (e: Self)
        ensures
            e.code == (match violation.class {
                ConstraintClass::Property => RpcErrorCode::PropertyConstraintViolation,
                ConstraintClass::Occurrence => RpcErrorCode::OccurrenceConstraintViolation,
            }),
            e.description == violation.message,
            e.details == json_object_of_texts(
                seq![("path"@, spec_render_path(violation.path_truncated, violation.path@))],
            ),
    {
        let code = match violation.class {
            ConstraintClass::Property => RpcErrorCode::PropertyConstraintViolation,
            ConstraintClass::Occurrence => RpcErrorCode::OccurrenceConstraintViolation,
        };
        let path = render_path(violation.path_truncated, &violation.path);
        OCPP2_1Error { code, description: violation.message, details: object_with_text("path", path) }
    }

    /// The error answering an `ocpp_types` validation failure: the violation it reports (see
    /// `validation::violation_of`), answered as `from_violation` answers it.
    pub fn from_validation_error(error: &ocpp_types::validate::ValidationError) -> (e: Self)
        ensures
            e.code == (match spec_violation_class(*error) {
                ConstraintClass::Property => RpcErrorCode::PropertyConstraintViolation,
                ConstraintClass::Occurrence => RpcErrorCode::OccurrenceConstraintViolation,
            }),
            e.description@ == spec_violation_message(*error),
            e.details == json_object_of_texts(
                seq![("path"@, spec_render_path(validation_error_truncated(*error), validation_error_path(*error)))],
            ),
    {
        Self::from_violation(violation_of(error))
    }

    /// The error a received CALLERROR frame carries.
    pub fn from_wire(code: &str, description: &str, details: serde_json::Value) -> (e: Self)
        ensures
            e.code == spec_code_from_wire(code@),
            e.description@ == description@,
            e.details == details,
    {
        OCPP2_1Error {
            code: code_from_wire(code),
            description: String::from_str(description),
            details,
        }
    }
}

} // verus!
