use vstd::prelude::*;

verus! {

/// The ways building or solving an equation can fail.
#[derive(Clone, Copy, Debug, PartialEq, Eq, Structural)]
pub enum Error {
    /// No participating field holds the unknown.
    NoUnknown,
    /// More than one participating field holds the unknown.
    SeveralUnknown,
    /// A division by a constant that is exactly zero.
    DivisionByZero,
    /// A product of two elements that both carry the unknown.
    SquareForbidden,
    /// A division by an element that carries the unknown.
    UnknownInDenominator,
}

/// Accumulated status of a computation: `Ok` until the first error.
pub type Status = Result<(), Error>;

/// Status of a combination of two operands: the first error, if any.
pub open spec fn both(first: Status, second: Status) -> Status {
    match first {
        Err(_) => first,
        Ok(()) => second,
    }
}

/// Combines two statuses, keeping the first error that occurred.
pub fn combine_status(first: Status, second: Status) -> (r: Status)
    ensures
        r == both(first, second),
        r is Ok <==> (first is Ok && second is Ok),
{
    match first {
        Err(e) => Err(e),
        Ok(()) => second,
    }
}

} // verus!
