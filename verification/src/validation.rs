//! Answering a payload that breaks its schema: the JSON path of the offending value, rendered
//! the way `ocpp_types::validate::ValidationError` renders it (`id[0]`, `a.b`, and `<payload>`
//! for a violation at the root), for the `errorDetails` of the CALLERROR.

use vstd::prelude::*;

verus! {

/// One step of the path from the payload root to the offending value.
#[derive(Debug, Clone, PartialEq, Eq)]
pub enum PathSegment {
    Field(String),
    Index(usize),
}

/// Which family of schema constraint was broken; it decides the CALLERROR code.
#[derive(Debug, Clone, Copy, PartialEq, Eq)]
pub enum ConstraintClass {
    /// A value's own bounds (length, range, multiple).
    Property,
    /// How many items there are.
    Occurrence,
}

/// A schema violation: the broken constraint's class, the violation's own message, and the path
/// to the value that broke it (outermost first; `path_truncated` when outer steps were dropped).
#[derive(Debug, Clone)]
pub struct Violation {
    pub class: ConstraintClass,
    pub message: String,
    pub path_truncated: bool,
    pub path: Vec<PathSegment>,
}

/// The decimal digit `d` as text.
pub open spec fn spec_digit(d: nat) -> Seq<char> {
    if d == 0 {
        "0"@
    } else if d == 1 {
        "1"@
    } else if d == 2 {
        "2"@
    } else if d == 3 {
        "3"@
    } else if d == 4 {
        "4"@
    } else if d == 5 {
        "5"@
    } else if d == 6 {
        "6"@
    } else if d == 7 {
        "7"@
    } else if d == 8 {
        "8"@
    } else {
        "9"@
    }
}

/// The decimal text of `n`, without leading zeros.
pub open spec fn spec_decimal(n: nat) -> Seq<char>
    decreases n,
{
    if n < 10 {
        spec_digit(n)
    } else {
        spec_decimal(n / 10) + spec_digit(n % 10)
    }
}

/// The number a text of decimal digits stands for, most significant digit first.
pub open spec fn spec_decimal_value(text: Seq<char>) -> int
    decreases text.len(),
{
    if text.len() == 0 {
        0
    } else {
        spec_decimal_value(text.drop_last()) * 10 + (text.last() as int - ('0' as int))
    }
}

/// Whether every character of `text` is one of the decimal digits `0` to `9`.
pub open spec fn is_digit_text(text: Seq<char>) -> bool {
    forall|i: int| 0 <= i < text.len() ==> ('0' as int) <= (#[trigger] text[i] as int) <= ('9' as int)
}

/// The text of a digit is that one digit character.
proof fn lemma_digit_char(d: nat)
    requires
        d < 10,
    ensures
        spec_digit(d).len() == 1,
        spec_digit(d)[0] as int == ('0' as int) + d,
{
    reveal_strlit("0");
    reveal_strlit("1");
    reveal_strlit("2");
    reveal_strlit("3");
    reveal_strlit("4");
    reveal_strlit("5");
    reveal_strlit("6");
    reveal_strlit("7");
    reveal_strlit("8");
    reveal_strlit("9");
}

/// The text of `n` is its ordinary base-10 numeral: at least one character, all of them
/// digits, no leading zero (but for `0` itself), and read back digit by digit it is `n`.
pub proof fn lemma_decimal_reads_back(n: nat)
    ensures
        spec_decimal(n).len() >= 1,
        is_digit_text(spec_decimal(n)),
        n != 0 ==> spec_decimal(n)[0] != '0',
        spec_decimal_value(spec_decimal(n)) == n,
    decreases n,
{
    if n < 10 {
        lemma_digit_char(n);
        let s = spec_digit(n);
        assert(s.drop_last() =~= Seq::<char>::empty());
        assert(spec_decimal_value(s.drop_last()) == 0);
    } else {
        let q = n / 10;
        let r = n % 10;
        lemma_decimal_reads_back(q);
        lemma_digit_char(r);
        let head = spec_decimal(q);
        let s = head + spec_digit(r);
        assert(s == spec_decimal(n));
        assert(s.drop_last() =~= head);
        assert(s.last() == spec_digit(r)[0]);
        assert(s[0] == head[0]);
        assert forall|i: int| 0 <= i < s.len() implies ('0' as int) <= (#[trigger] s[i] as int)
            <= ('9' as int) by {
            if i < head.len() {
                assert(s[i] == head[i]);
            } else {
                assert(s[i] == spec_digit(r)[0]);
            }
        }
    }
}

fn digit_text(d: usize) -> (s: &'static str)
    requires
        d < 10,
    ensures
        s@ == spec_digit(d as nat),
{
    if d == 0 {
        "0"
    } else if d == 1 {
        "1"
    } else if d == 2 {
        "2"
    } else if d == 3 {
        "3"
    } else if d == 4 {
        "4"
    } else if d == 5 {
        "5"
    } else if d == 6 {
        "6"
    } else if d == 7 {
        "7"
    } else if d == 8 {
        "8"
    } else {
        "9"
    }
}

/// The decimal text of `n`.
pub fn decimal_text(n: usize) -> (s: String)
    ensures
        s@ == spec_decimal(n as nat),
    decreases n,
{
    if n < 10 {
        String::from_str(digit_text(n))
    } else {
        let mut s = decimal_text(n / 10);
        s.append(digit_text(n % 10));
        s
    }
}

/// One segment as written: a field name (after a dot unless it opens the path), or a bracketed
/// index.
pub open spec fn spec_segment_text(segment: PathSegment, dotted: bool) -> Seq<char> {
    match segment {
        PathSegment::Field(name) => if dotted {
            "."@ + name@
        } else {
            name@
        },
        PathSegment::Index(index) => "["@ + spec_decimal(index as nat) + "]"@,
    }
}

/// The segments as written, in order; a field is dotted unless it is the first segment of an
/// untruncated path.
pub open spec fn spec_path_body(segments: Seq<PathSegment>, truncated: bool) -> Seq<char>
    decreases segments.len(),
{
    if segments.len() == 0 {
        Seq::empty()
    } else {
        spec_path_body(segments.drop_last(), truncated) + spec_segment_text(
            segments.last(),
            segments.len() > 1 || truncated,
        )
    }
}

/// The rendered path: `...` first when outer segments were dropped, `<payload>` for an empty
/// untruncated path, then the segments.
pub open spec fn spec_render_path(truncated: bool, segments: Seq<PathSegment>) -> Seq<char> {
    (if truncated {
        "..."@
    } else {
        Seq::empty()
    }) + (if segments.len() == 0 && !truncated {
        "<payload>"@
    } else {
        Seq::empty()
    }) + spec_path_body(segments, truncated)
}

/// Renders the path of a violation.
pub fn render_path(truncated: bool, segments: &Vec<PathSegment>) -> (s: String)
    ensures
        s@ == spec_render_path(truncated, segments@),
{
    let mut s = String::new();
    if truncated {
        s.append("...");
    }
    if segments.len() == 0 && !truncated {
        s.append("<payload>");
    }
    let ghost prefix = s@;
    assert(prefix == (if truncated {
        "..."@
    } else {
        Seq::<char>::empty()
    }) + (if segments@.len() == 0 && !truncated {
        "<payload>"@
    } else {
        Seq::<char>::empty()
    })) by {
        if !truncated && segments@.len() != 0 {
            assert(prefix =~= Seq::<char>::empty() + Seq::<char>::empty());
        }
        if !truncated && segments@.len() == 0 {
            assert(prefix =~= Seq::<char>::empty() + "<payload>"@);
        }
        if truncated {
            assert(prefix =~= "..."@ + Seq::<char>::empty());
        }
    }
    let mut position: usize = 0;
    while position < segments.len()
        invariant
            position <= segments@.len(),
            s@ == prefix + spec_path_body(segments@.take(position as int), truncated),
        decreases segments@.len() - position,
    {
        proof {
            assert(segments@.take(position as int + 1).drop_last() =~= segments@.take(
                position as int,
            ));
        }
        match &segments[position] {
            PathSegment::Field(name) => {
                if position > 0 || truncated {
                    s.append(".");
                }
                s.append(name.as_str());
            },
            PathSegment::Index(index) => {
                s.append("[");
                s.append(decimal_text(*index).as_str());
                s.append("]");
            },
        }
        proof {
            let taken = segments@.take(position as int + 1);
            assert(taken.last() == segments@[position as int]);
            assert(s@ =~= prefix + spec_path_body(taken, truncated));
        }
        position = position + 1;
    }
    assert(segments@.take(segments@.len() as int) =~= segments@);
    s
}

/// `ocpp_types`' report of a broken schema constraint, carried opaquely.
#[verifier::external_type_specification]
#[verifier::external_body]
pub struct ExValidationError(ocpp_types::validate::ValidationError);

/// `ocpp_types`' description of what was wrong with a value, carried opaquely.
#[verifier::external_type_specification]
#[verifier::external_body]
pub struct ExValidationErrorKind(ocpp_types::validate::ValidationErrorKind);

/// What an `ocpp_types` validation error says was wrong with the value (`ValidationError::kind`).
pub uninterp spec fn validation_error_kind(
    error: ocpp_types::validate::ValidationError,
) -> ocpp_types::validate::ValidationErrorKind;

/// `ValidationError::kind`: what was wrong with the value. The result is named by
/// `validation_error_kind`: the same error gives the same kind.
#[verifier::external_body]
fn error_kind(error: &ocpp_types::validate::ValidationError) -> (k: ocpp_types::validate::ValidationErrorKind)
    ensures
        k == validation_error_kind(*error),
{
    error.kind()
}

/// Which variant of `ocpp_types::validate::ValidationErrorKind` a kind is, without the values
/// it carries.
#[derive(Debug, Clone, Copy, PartialEq, Eq)]
pub enum KindVariant {
    TooLong,
    TooManyItems,
    TooFewItems,
    BelowMinimum,
    AboveMaximum,
    NotMultipleOf,
}

/// The variant of a kind.
pub uninterp spec fn validation_kind_variant(kind: ocpp_types::validate::ValidationErrorKind) -> KindVariant;

/// Which variant of `ValidationErrorKind` a kind is, as the library's `KindVariant`. The result
/// is named by `validation_kind_variant`.
#[verifier::external_body]
fn kind_variant(kind: &ocpp_types::validate::ValidationErrorKind) -> (v: KindVariant)
    ensures
        v == validation_kind_variant(*kind),
{
    match kind {
        ocpp_types::validate::ValidationErrorKind::TooLong { .. } => KindVariant::TooLong,
        ocpp_types::validate::ValidationErrorKind::TooManyItems { .. } => KindVariant::TooManyItems,
        ocpp_types::validate::ValidationErrorKind::TooFewItems { .. } => KindVariant::TooFewItems,
        ocpp_types::validate::ValidationErrorKind::BelowMinimum { .. } => KindVariant::BelowMinimum,
        ocpp_types::validate::ValidationErrorKind::AboveMaximum { .. } => KindVariant::AboveMaximum,
        ocpp_types::validate::ValidationErrorKind::NotMultipleOf { .. } => KindVariant::NotMultipleOf,
    }
}

/// The constraint class of a kind, as `ValidationErrorKind::constraint_class` decides it: a
/// wrong number of array items is an occurrence violation, anything else a property violation.
pub open spec fn spec_constraint_class(variant: KindVariant) -> ConstraintClass {
    match variant {
        KindVariant::TooManyItems | KindVariant::TooFewItems => ConstraintClass::Occurrence,
        _ => ConstraintClass::Property,
    }
}

/// The constraint class of a kind's variant.
pub fn constraint_class(variant: KindVariant) -> (c: ConstraintClass)
    ensures
        c == spec_constraint_class(variant),
{
    match variant {
        KindVariant::TooManyItems => ConstraintClass::Occurrence,
        KindVariant::TooFewItems => ConstraintClass::Occurrence,
        _ => ConstraintClass::Property,
    }
}

/// The text a kind's `Display` writes: what was expected, and what was found.
pub uninterp spec fn validation_kind_text(kind: ocpp_types::validate::ValidationErrorKind) -> Seq<char>;

/// The text `ValidationError`'s `Display` writes for `error`: its rendered path (see
/// `spec_render_path`), `": "`, then its kind's text.
pub open spec fn spec_violation_message(error: ocpp_types::validate::ValidationError) -> Seq<char> {
    spec_render_path(validation_error_truncated(error), validation_error_path(error)) + ": "@
        + validation_kind_text(validation_error_kind(error))
}

/// A violation's message starts with the path its CALLERROR details carry, then `": "`: the
/// details and the description name the same place in the payload.
pub proof fn lemma_message_starts_with_path(error: ocpp_types::validate::ValidationError)
    ensures
        ({
            let path = spec_render_path(validation_error_truncated(error), validation_error_path(error));
            spec_violation_message(error).subrange(0, path.len() as int + 2) == path + ": "@
        }),
{
    let path = spec_render_path(validation_error_truncated(error), validation_error_path(error));
    reveal_strlit(": ");
    assert(spec_violation_message(error).subrange(0, path.len() as int + 2) =~= path + ": "@);
}

/// The constraint class of `error`'s kind.
pub open spec fn spec_violation_class(error: ocpp_types::validate::ValidationError) -> ConstraintClass {
    spec_constraint_class(validation_kind_variant(validation_error_kind(error)))
}

/// `ValidationError`'s `Display` (through `ToString::to_string`). As its source writes it: `...`
/// when the path was truncated, `<payload>` for an empty untruncated path, the path's fields
/// (dotted unless first in an untruncated path) and `[index]`es, then `": "` and the kind's
/// `Display`.
#[verifier::external_body]
fn error_message(error: &ocpp_types::validate::ValidationError) -> (s: String)
    ensures
        s@ == spec_render_path(validation_error_truncated(*error), validation_error_path(*error))
            + ": "@ + validation_kind_text(validation_error_kind(*error)),
{
    error.to_string()
}

/// Whether the error's path lost its outermost segments (`ValidationError::path_truncated`).
pub uninterp spec fn validation_error_truncated(error: ocpp_types::validate::ValidationError) -> bool;

/// `ValidationError::path_truncated`. The result is named by `validation_error_truncated`.
#[verifier::external_body]
fn error_path_truncated(error: &ocpp_types::validate::ValidationError) -> (t: bool)
    ensures
        t == validation_error_truncated(*error),
{
    error.path_truncated()
}

/// The error's path (`ValidationError::path`), outermost segment first, as the library's
/// `PathSegment`s (a field by its wire name, an array position by its index).
pub uninterp spec fn validation_error_path(error: ocpp_types::validate::ValidationError) -> Seq<PathSegment>;

/// Segment `index` of `ValidationError::path`, as the library's `PathSegment`, or `None` past
/// its end. The result is named by `validation_error_path`. The path is a `heapless::Vec` of
/// capacity `MAX_PATH_DEPTH`, 16, so there is no segment from index 16 on.
#[verifier::external_body]
fn error_path_segment(error: &ocpp_types::validate::ValidationError, index: usize) -> (s: Option<PathSegment>)
    ensures
        index < validation_error_path(*error).len() ==> s == Some(validation_error_path(*error)[index as int]),
        index >= validation_error_path(*error).len() ==> s is None,
        index >= 16 ==> s is None,
{
    match error.path().get(index) {
        Some(ocpp_types::validate::PathSegment::Field(name)) => Some(PathSegment::Field(name.to_string())),
        Some(ocpp_types::validate::PathSegment::Index(i)) => Some(PathSegment::Index(*i)),
        None => None,
    }
}

/// The violation an `ocpp_types` validation error reports: the constraint class of its kind, its
/// message (the error's own rendering: its path, `": "`, what was wrong), whether its path was
/// truncated, and its path, segment by segment (at most 16 of them).
pub fn violation_of(error: &ocpp_types::validate::ValidationError) -> (v: Violation)
    ensures
        v.class == spec_violation_class(*error),
        v.message@ == spec_violation_message(*error),
        v.path_truncated == validation_error_truncated(*error),
        v.path@ == validation_error_path(*error),
        v.path@.len() <= 16,
{
    let kind = error_kind(error);
    let class = constraint_class(kind_variant(&kind));
    let message = error_message(error);
    let path_truncated = error_path_truncated(error);
    let ghost all = validation_error_path(*error);
    let mut path: Vec<PathSegment> = Vec::new();
    let mut index: usize = 0;
    loop
        invariant
            index <= 16,
            index <= all.len(),
            all == validation_error_path(*error),
            path@ == all.subrange(0, index as int),
        ensures
            path@ == all,
            all.len() <= 16,
        decreases all.len() - index,
    {
        match error_path_segment(error, index) {
            Some(segment) => {
                path.push(segment);
                index = index + 1;
                assert(path@ =~= all.subrange(0, index as int));
            },
            None => {
                assert(all.subrange(0, index as int) =~= all);
                break;
            },
        }
    }
    Violation { class, message, path_truncated, path }
}

} // verus!
