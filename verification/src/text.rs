//! Small text helpers shared by the error types.

use vstd::prelude::*;

verus! {

/// Whether two texts are equal.
pub fn same_text(a: &str, b: &str) -> (r: bool)
    ensures
        r == (a@ == b@),
{
    let a = String::from_str(a);
    let b = String::from_str(b);
    a == b
}

/// `a`, then `b`, then `c`, as one string.
pub fn concat3(a: &str, b: &str, c: &str) -> (r: String)
    ensures
        r@ == a@ + b@ + c@,
{
    let mut s = String::from_str(a);
    s.append(b);
    s.append(c);
    s
}

/// The description of a CALLERROR answering an action the receiver does not implement.
pub open spec fn spec_not_implemented_text(action: Seq<char>) -> Seq<char> {
    "Action '"@ + action + "' is not implemented"@
}

/// `Action '<action>' is not implemented`.
pub fn not_implemented_text(action: &str) -> (r: String)
    ensures
        r@ == spec_not_implemented_text(action@),
{
    concat3("Action '", action, "' is not implemented")
}

} // verus!
