//! The OCPP-J wire envelopes, identical across 1.6, 2.0.1 and 2.1.
//!
//! A frame is a JSON array whose first element is the message type number:
//! `[2, id, action, payload]` (CALL), `[3, id, payload]` (CALLRESULT),
//! `[4, id, code, description, details]` (CALLERROR) and, in 2.1, `[6, id, action, payload]`
//! (SEND). JSON text itself is read and written by `serde_json` at the transport edge; this
//! module decides what an already-parsed array means, and lays out the arrays the client sends.
//! Payloads are carried through untouched as `P`.

use vstd::prelude::*;

verus! {

/// Message type number of a CALL.
pub const MESSAGE_TYPE_CALL: u64 = 2;

/// Message type number of a CALLRESULT.
pub const MESSAGE_TYPE_RESULT: u64 = 3;

/// Message type number of a CALLERROR.
pub const MESSAGE_TYPE_ERROR: u64 = 4;

/// Message type number of a SEND (OCPP-J 2.1).
pub const MESSAGE_TYPE_SEND: u64 = 6;

/// How one element of a JSON array reads, as far as the envelope is concerned.
#[derive(Debug, Clone, PartialEq, Eq)]
pub enum JsonShape {
    /// A number representable as `u64`.
    Unsigned(u64),
    /// Any other number (negative or fractional).
    OtherNumber,
    /// A string.
    Text(String),
    Null,
    Bool,
    Array,
    Object,
}

/// One element of a received JSON array: its shape, and the element itself.
#[derive(Debug, Clone)]
pub struct Element<P> {
    pub shape: JsonShape,
    pub value: P,
}

/// A received text frame after JSON parsing.
#[derive(Debug, Clone)]
pub enum ParsedFrame<P> {
    /// The text is not JSON.
    NotJson,
    /// The JSON is not an array.
    NotArray,
    /// The elements of the JSON array.
    Array(Vec<Element<P>>),
}

/// A well-formed OCPP-J message.
#[derive(Debug, Clone)]
pub enum Envelope<P> {
    Call { message_id: String, action: String, payload: P },
    CallResult { message_id: String, payload: P },
    CallError { message_id: String, code: String, description: String, details: P },
    Send { message_id: String, action: String, payload: P },
}

/// Why a received frame is not a well-formed OCPP-J message.
#[derive(Debug, Clone, Copy, PartialEq, Eq)]
pub enum FrameError {
    /// The text is not JSON.
    NotJson,
    /// A message must be a JSON array.
    NotAnArray,
    /// The array does not start with a number.
    MissingMessageType,
    /// The message type is a number but not a non-negative integer.
    MessageTypeNotInteger,
    /// The message type is known but the array does not have that message's layout.
    Malformed(u64),
    /// The message type is not one this client knows.
    UnknownMessageType(u64),
}

/// The string an element holds, if it is a string.
pub open spec fn spec_text<P>(e: Element<P>) -> Option<String> {
    match e.shape {
        JsonShape::Text(s) => Some(s),
        _ => None,
    }
}

/// The meaning of a received array's elements.
pub open spec fn spec_decode_items<P>(s: Seq<Element<P>>) -> Result<Envelope<P>, FrameError> {
    if s.len() == 0 {
        Err(FrameError::MissingMessageType)
    } else {
        match s[0].shape {
            JsonShape::Unsigned(t) => if t == MESSAGE_TYPE_CALL || t == MESSAGE_TYPE_SEND {
                if s.len() == 4 && spec_text(s[1]) is Some && spec_text(s[2]) is Some {
                    if t == MESSAGE_TYPE_CALL {
                        Ok(
                            Envelope::Call {
                                message_id: spec_text(s[1]).unwrap(),
                                action: spec_text(s[2]).unwrap(),
                                payload: s[3].value,
                            },
                        )
                    } else {
                        Ok(
                            Envelope::Send {
                                message_id: spec_text(s[1]).unwrap(),
                                action: spec_text(s[2]).unwrap(),
                                payload: s[3].value,
                            },
                        )
                    }
                } else {
                    Err(FrameError::Malformed(t))
                }
            } else if t == MESSAGE_TYPE_RESULT {
                if s.len() == 3 && spec_text(s[1]) is Some {
                    Ok(
                        Envelope::CallResult {
                            message_id: spec_text(s[1]).unwrap(),
                            payload: s[2].value,
                        },
                    )
                } else {
                    Err(FrameError::Malformed(t))
                }
            } else if t == MESSAGE_TYPE_ERROR {
                if s.len() == 5 && spec_text(s[1]) is Some && spec_text(s[2]) is Some && spec_text(
                    s[3],
                ) is Some {
                    Ok(
                        Envelope::CallError {
                            message_id: spec_text(s[1]).unwrap(),
                            code: spec_text(s[2]).unwrap(),
                            description: spec_text(s[3]).unwrap(),
                            details: s[4].value,
                        },
                    )
                } else {
                    Err(FrameError::Malformed(t))
                }
            } else {
                Err(FrameError::UnknownMessageType(t))
            },
            JsonShape::OtherNumber => Err(FrameError::MessageTypeNotInteger),
            _ => Err(FrameError::MissingMessageType),
        }
    }
}

/// The meaning of a received frame.
pub open spec fn spec_decode<P>(f: ParsedFrame<P>) -> Result<Envelope<P>, FrameError> {
    match f {
        ParsedFrame::NotJson => Err(FrameError::NotJson),
        ParsedFrame::NotArray => Err(FrameError::NotAnArray),
        ParsedFrame::Array(items) => spec_decode_items(items@),
    }
}

fn is_text<P>(e: &Element<P>) -> (b: bool)
    ensures
        b == (spec_text(*e) is Some),
{
    match &e.shape {
        JsonShape::Text(_) => true,
        _ => false,
    }
}

fn take_text<P>(e: Element<P>) -> (s: Option<String>)
    ensures
        s == spec_text(e),
{
    match e.shape {
        JsonShape::Text(s) => Some(s),
        _ => None,
    }
}

/// Decides what a received frame is: a CALL, CALLRESULT, CALLERROR or SEND with its parts, or
/// why it is none of them.
pub fn decode_frame<P>(frame: ParsedFrame<P>) -> (r: Result<Envelope<P>, FrameError>)
    ensures
        r == spec_decode(frame),
{
    let mut items = match frame {
        ParsedFrame::NotJson => return Err(FrameError::NotJson),
        ParsedFrame::NotArray => return Err(FrameError::NotAnArray),
        ParsedFrame::Array(items) => items,
    };
    let ghost s = items@;
    if items.len() == 0 {
        return Err(FrameError::MissingMessageType);
    }
    let t = match &items[0].shape {
        JsonShape::Unsigned(t) => *t,
        JsonShape::OtherNumber => return Err(FrameError::MessageTypeNotInteger),
        _ => return Err(FrameError::MissingMessageType),
    };
    if t == MESSAGE_TYPE_CALL || t == MESSAGE_TYPE_SEND {
        if items.len() == 4 && is_text(&items[1]) && is_text(&items[2]) {
            let payload = items.pop().unwrap();
            let action = take_text(items.pop().unwrap()).unwrap();
            let message_id = take_text(items.pop().unwrap()).unwrap();
            if t == MESSAGE_TYPE_CALL {
                Ok(Envelope::Call { message_id, action, payload: payload.value })
            } else {
                Ok(Envelope::Send { message_id, action, payload: payload.value })
            }
        } else {
            Err(FrameError::Malformed(t))
        }
    } else if t == MESSAGE_TYPE_RESULT {
        if items.len() == 3 && is_text(&items[1]) {
            let payload = items.pop().unwrap();
            let message_id = take_text(items.pop().unwrap()).unwrap();
            Ok(Envelope::CallResult { message_id, payload: payload.value })
        } else {
            Err(FrameError::Malformed(t))
        }
    } else if t == MESSAGE_TYPE_ERROR {
        if items.len() == 5 && is_text(&items[1]) && is_text(&items[2]) && is_text(&items[3]) {
            let details = items.pop().unwrap();
            let description = take_text(items.pop().unwrap()).unwrap();
            let code = take_text(items.pop().unwrap()).unwrap();
            let message_id = take_text(items.pop().unwrap()).unwrap();
            Ok(Envelope::CallError { message_id, code, description, details: details.value })
        } else {
            Err(FrameError::Malformed(t))
        }
    } else {
        Err(FrameError::UnknownMessageType(t))
    }
}

/// One element of an outgoing JSON array.
#[derive(Debug, Clone)]
pub enum Outgoing<P> {
    /// A non-negative integer.
    Unsigned(u64),
    /// A string.
    Text(String),
    /// A payload, written as it is.
    Value(P),
}

/// The array that carries a message on the wire.
pub open spec fn spec_encode<P>(env: Envelope<P>) -> Seq<Outgoing<P>> {
    match env {
        Envelope::Call { message_id, action, payload } => seq![
            Outgoing::Unsigned(MESSAGE_TYPE_CALL),
            Outgoing::Text(message_id),
            Outgoing::Text(action),
            Outgoing::Value(payload),
        ],
        Envelope::CallResult { message_id, payload } => seq![
            Outgoing::Unsigned(MESSAGE_TYPE_RESULT),
            Outgoing::Text(message_id),
            Outgoing::Value(payload),
        ],
        Envelope::CallError { message_id, code, description, details } => seq![
            Outgoing::Unsigned(MESSAGE_TYPE_ERROR),
            Outgoing::Text(message_id),
            Outgoing::Text(code),
            Outgoing::Text(description),
            Outgoing::Value(details),
        ],
        Envelope::Send { message_id, action, payload } => seq![
            Outgoing::Unsigned(MESSAGE_TYPE_SEND),
            Outgoing::Text(message_id),
            Outgoing::Text(action),
            Outgoing::Value(payload),
        ],
    }
}

/// Lays out a message as the JSON array that carries it.
pub fn encode_frame<P>(env: Envelope<P>) -> (out: Vec<Outgoing<P>>)
    ensures
        out@ == spec_encode(env),
{
    let mut out: Vec<Outgoing<P>> = Vec::new();
    match env {
        Envelope::Call { message_id, action, payload } => {
            out.push(Outgoing::Unsigned(MESSAGE_TYPE_CALL));
            out.push(Outgoing::Text(message_id));
            out.push(Outgoing::Text(action));
            out.push(Outgoing::Value(payload));
        },
        Envelope::CallResult { message_id, payload } => {
            out.push(Outgoing::Unsigned(MESSAGE_TYPE_RESULT));
            out.push(Outgoing::Text(message_id));
            out.push(Outgoing::Value(payload));
        },
        Envelope::CallError { message_id, code, description, details } => {
            out.push(Outgoing::Unsigned(MESSAGE_TYPE_ERROR));
            out.push(Outgoing::Text(message_id));
            out.push(Outgoing::Text(code));
            out.push(Outgoing::Text(description));
            out.push(Outgoing::Value(details));
        },
        Envelope::Send { message_id, action, payload } => {
            out.push(Outgoing::Unsigned(MESSAGE_TYPE_SEND));
            out.push(Outgoing::Text(message_id));
            out.push(Outgoing::Text(action));
            out.push(Outgoing::Value(payload));
        },
    }
    assert(out@ =~= spec_encode(env));
    out
}

/// Whether `e` is how a peer reads back the element `o` the client wrote: the same integer,
/// the same string, or the same payload (whatever its shape).
pub open spec fn reads_back<P>(o: Outgoing<P>, e: Element<P>) -> bool {
    match o {
        Outgoing::Unsigned(u) => e.shape == JsonShape::Unsigned(u),
        Outgoing::Text(s) => e.shape == JsonShape::Text(s),
        Outgoing::Value(p) => e.value == p,
    }
}

/// A frame the client writes decodes, on the other side, to the very message it carries.
pub proof fn lemma_decode_inverts_encode<P>(env: Envelope<P>, read: Seq<Element<P>>)
    requires
        read.len() == spec_encode(env).len(),
        forall|i: int| 0 <= i < read.len() ==> reads_back(#[trigger] spec_encode(env)[i], read[i]),
    ensures
        spec_decode_items(read) == Ok::<Envelope<P>, FrameError>(env),
{
    let out = spec_encode(env);
    assert(reads_back(out[0], read[0]));
    assert(reads_back(out[1], read[1]));
    assert(reads_back(out[2], read[2]));
    match env {
        Envelope::CallResult { .. } => {},
        Envelope::CallError { .. } => {
            assert(reads_back(out[3], read[3]));
            assert(reads_back(out[4], read[4]));
        },
        _ => {
            assert(reads_back(out[3], read[3]));
        },
    }
}

} // verus!
