//! Outcomes of the runtime's racing helpers, which surface through the client's API.

use vstd::prelude::*;

verus! {

/// Returned when a timeout elapses before the future it was racing resolves.
#[derive(Debug, Clone, Copy, PartialEq, Eq)]
pub struct Elapsed;

/// Returned when a cancellation signal fires before the future it was racing resolves.
#[derive(Debug, Clone, Copy, PartialEq, Eq)]
pub struct Cancelled;

} // verus!
