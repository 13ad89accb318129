use vstd::prelude::*;

use crate::error::{both, combine_status, Error, Status};

verus! {

/// The form of an affine element `a*x + b`: everything about it but its
/// two numbers.
///
/// `slot` is present exactly when the element carries the unknown, that is
/// when its `a*x` part exists; it names the storage slot that the solve step
/// writes. `status` is the first error met while the element was built.
#[derive(Clone, Copy, Debug, PartialEq, Eq)]
pub struct Form {
    pub slot: Option<usize>,
    pub status: Status,
}

/// Form of a known constant.
pub open spec fn known_form() -> Form {
    Form { slot: None, status: Ok(()) }
}

/// Form of the bare unknown stored in `slot`.
pub open spec fn unknown_form(slot: usize) -> Form {
    Form { slot: Some(slot), status: Ok(()) }
}

/// An error status, or `Ok` when the condition does not hold.
pub open spec fn fail_if(condition: bool, e: Error) -> Status {
    if condition {
        Err(e)
    } else {
        Ok(())
    }
}

/// The slot of a combination: the left operand's, else the right one's.
pub open spec fn either_slot(l: Form, r: Form) -> Option<usize> {
    match l.slot {
        Some(s) => Some(s),
        None => r.slot,
    }
}

/// Form of a sum or a difference of two elements.
pub open spec fn combined(l: Form, r: Form) -> Form {
    Form { slot: either_slot(l, r), status: both(l.status, r.status) }
}

/// Form of a product of two elements.
pub open spec fn multiplied(l: Form, r: Form) -> Form {
    Form {
        slot: either_slot(l, r),
        status: both(
            both(l.status, r.status),
            fail_if(l.slot is Some && r.slot is Some, Error::SquareForbidden),
        ),
    }
}

/// Whether an element can serve as a divisor: it carries no unknown and
/// its constant is not zero.
pub open spec fn usable_divisor(r: Form, constant_is_zero: bool) -> bool {
    r.slot is None && !constant_is_zero
}

/// Error raised by a divisor, if any: an unknown in it comes first, then a
/// zero constant.
pub open spec fn divisor_status(r: Form, constant_is_zero: bool) -> Status {
    if r.slot is Some {
        Err(Error::UnknownInDenominator)
    } else {
        fail_if(constant_is_zero, Error::DivisionByZero)
    }
}

/// Form of a quotient of two elements; the dividend keeps its unknown.
pub open spec fn divided(l: Form, r: Form, constant_is_zero: bool) -> Form {
    Form {
        slot: l.slot,
        status: both(both(l.status, r.status), divisor_status(r, constant_is_zero)),
    }
}

/// Form of an element divided by a plain number.
pub open spec fn divided_by_number(l: Form, divisor_is_zero: bool) -> Form {
    Form { slot: l.slot, status: both(l.status, fail_if(divisor_is_zero, Error::DivisionByZero)) }
}

/// Slot written when `l == r` is solved: the difference `l - r` must carry
/// the unknown, be free of errors, and have a coefficient other than zero.
pub open spec fn solve_slot(l: Form, r: Form, coefficient_is_zero: bool) -> Option<usize> {
    let d = combined(l, r);
    if d.status is Ok && !coefficient_is_zero {
        d.slot
    } else {
        None
    }
}

impl Form {
    /// Form of a known constant `b`.
    pub fn known() -> (r: Form)
        ensures
            r == known_form(),
    {
        Form { slot: None, status: Ok(()) }
    }

    /// Form of the bare unknown `1*x` stored in `slot`.
    pub fn unknown(slot: usize) -> (r: Form)
        ensures
            r == unknown_form(slot),
    {
        Form { slot: Some(slot), status: Ok(()) }
    }

    /// Whether the element carries the unknown.
    pub fn has_unknown(&self) -> (r: bool)
        ensures
            r == self.slot is Some,
    {
        self.slot.is_some()
    }

    /// Form of `self + rhs` and of `self - rhs`: the unknown part is kept
    /// from whichever side has it, and the statuses accumulate.
    pub fn combine(&self, rhs: &Form) -> (r: Form)
        ensures
            r == combined(*self, *rhs),
    {
        let slot = match self.slot {
            Some(s) => Some(s),
            None => rhs.slot,
        };
        Form { slot, status: combine_status(self.status, rhs.status) }
    }

    /// Form of `self * rhs`. Only one side may carry the unknown: a product
    /// of two unknown-bearing elements is of degree two and fails with
    /// `SquareForbidden`.
    pub fn product(&self, rhs: &Form) -> (r: Form)
        ensures
            r == multiplied(*self, *rhs),
    {
        let slot = match self.slot {
            Some(s) => Some(s),
            None => rhs.slot,
        };
        let square = if self.has_unknown() && rhs.has_unknown() {
            Err(Error::SquareForbidden)
        } else {
            Ok(())
        };
        Form { slot, status: combine_status(combine_status(self.status, rhs.status), square) }
    }

    /// Whether `self / rhs` divides the numbers of the dividend by the
    /// divisor's constant; when it does not, they are left as they were.
    pub fn divides(rhs: &Form, constant_is_zero: bool) -> (r: bool)
        ensures
            r == usable_divisor(*rhs, constant_is_zero),
    {
        !rhs.has_unknown() && !constant_is_zero
    }

    /// Form of `self / rhs`, where `constant_is_zero` tells whether the
    /// divisor's constant is exactly zero.
    pub fn quotient(&self, rhs: &Form, constant_is_zero: bool) -> (r: Form)
        ensures
            r == divided(*self, *rhs, constant_is_zero),
    {
        let divisor = if rhs.has_unknown() {
            Err(Error::UnknownInDenominator)
        } else if constant_is_zero {
            Err(Error::DivisionByZero)
        } else {
            Ok(())
        };
        Form { slot: self.slot, status: combine_status(combine_status(self.status, rhs.status), divisor) }
    }

    /// Form of `self / k` for a plain number `k`; `divisor_is_zero` tells
    /// whether `k` is exactly zero, in which case the numbers are left
    /// undivided.
    pub fn quotient_by_number(&self, divisor_is_zero: bool) -> (r: Form)
        ensures
            r == divided_by_number(*self, divisor_is_zero),
    {
        let divisor = if divisor_is_zero {
            Err(Error::DivisionByZero)
        } else {
            Ok(())
        };
        Form { slot: self.slot, status: combine_status(self.status, divisor) }
    }

    /// The solve step of `self == rhs`. The difference `self - rhs` has the
    /// form `combine(rhs)`; `coefficient_is_zero` tells whether its
    /// coefficient is exactly zero. Returns the slot that receives
    /// `x = -b / a`, or `None` when nothing is to be written.
    pub fn solve_target(&self, rhs: &Form, coefficient_is_zero: bool) -> (r: Option<usize>)
        ensures
            r == solve_slot(*self, *rhs, coefficient_is_zero),
            r is Some <==> (self.slot is Some || rhs.slot is Some) && self.status is Ok
                && rhs.status is Ok && !coefficient_is_zero,
    {
        let d = self.combine(rhs);
        if d.status.is_ok() && !coefficient_is_zero {
            d.slot
        } else {
            None
        }
    }

    /// The part of `self == rhs` that compares forms: both sides carry the
    /// unknown, or neither does.
    pub fn same_shape(&self, rhs: &Form) -> (r: bool)
        ensures
            r == (self.slot is Some == rhs.slot is Some),
    {
        self.has_unknown() == rhs.has_unknown()
    }
}

/// A product of two elements that both carry the unknown always fails,
/// whatever their numbers: with `SquareForbidden` when neither operand had
/// failed before, else with the earlier error.
pub proof fn lemma_square_forbidden(l: Form, r: Form)
    requires
        l.slot is Some,
        r.slot is Some,
    ensures
        multiplied(l, r).status is Err,
        l.status is Ok && r.status is Ok ==> multiplied(l, r).status == Err::<(), Error>(
            Error::SquareForbidden,
        ),
{
}

/// A division by an element that carries the unknown always fails and
/// leaves the dividend's numbers undivided: with `UnknownInDenominator`
/// when neither operand had failed before.
pub proof fn lemma_unknown_in_denominator(l: Form, r: Form, constant_is_zero: bool)
    requires
        r.slot is Some,
    ensures
        divided(l, r, constant_is_zero).status is Err,
        !usable_divisor(r, constant_is_zero),
        l.status is Ok && r.status is Ok ==> divided(l, r, constant_is_zero).status
            == Err::<(), Error>(Error::UnknownInDenominator),
{
}

/// A division by the constant zero, or by the number zero, fails and
/// leaves the dividend as it was: same unknown, numbers undivided. The
/// error is `DivisionByZero` when no operand had failed before.
pub proof fn lemma_division_by_zero(l: Form, r: Form)
    requires
        r.slot is None,
    ensures
        divided(l, r, true).status is Err,
        divided(l, r, true).slot == l.slot,
        !usable_divisor(r, true),
        l.status is Ok && r.status is Ok ==> divided(l, r, true).status == Err::<(), Error>(
            Error::DivisionByZero,
        ),
        divided_by_number(l, true).status is Err,
        divided_by_number(l, true).slot == l.slot,
        l.status is Ok ==> divided_by_number(l, true).status == Err::<(), Error>(
            Error::DivisionByZero,
        ),
{
}

/// Evaluating an equality twice on the same operand values compares the
/// forms the same way and solves again into the same slot: neither result
/// depends on anything but the operands, so a second evaluation overwrites
/// the slot once more.
pub proof fn lemma_equality_repeatable(
    l1: Form,
    r1: Form,
    l2: Form,
    r2: Form,
    coefficient_is_zero: bool,
)
    requires
        l1 == l2,
        r1 == r2,
    ensures
        (l1.slot is Some == r1.slot is Some) == (l2.slot is Some == r2.slot is Some),
        solve_slot(l1, r1, coefficient_is_zero) == solve_slot(l2, r2, coefficient_is_zero),
{
}

/// Solving a sum of two terms in the unknown of slot `s` against a known
/// constant: when nothing failed, the slot is written exactly when the
/// coefficient of the sum is not zero.
pub proof fn lemma_sum_against_constant(l: Form, r: Form, c: Form, s: usize, coefficient_is_zero: bool)
    requires
        l.slot == Some(s),
        r.slot == Some(s),
        c.slot is None,
        l.status is Ok,
        r.status is Ok,
        c.status is Ok,
    ensures
        solve_slot(combined(l, r), c, coefficient_is_zero) == if coefficient_is_zero {
            None
        } else {
            Some(s)
        },
{
}

/// Regrouping `(x + k1) + (x + k2)` as `x + k` keeps the form: the same
/// unknown, no error, so both solve into the same slot.
pub proof fn lemma_regrouping_keeps_form(s: usize, coefficient_is_zero: bool)
    ensures
        combined(
            combined(unknown_form(s), known_form()),
            combined(unknown_form(s), known_form()),
        ) == combined(unknown_form(s), known_form()),
        solve_slot(
            combined(
                combined(unknown_form(s), known_form()),
                combined(unknown_form(s), known_form()),
            ),
            known_form(),
            coefficient_is_zero,
        ) == solve_slot(combined(unknown_form(s), known_form()), known_form(), coefficient_is_zero),
{
}

} // verus!
