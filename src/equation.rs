use vstd::prelude::*;

use crate::error::{Error, Status};
use crate::form::Form;

verus! {

/// A user structure that states its equation over its own fields.
///
/// `auto_compute` evaluates the equality `lhs == rhs` between elements
/// built from the fields; evaluating it performs the solve step.
pub trait EquationAutoCompute {
    fn auto_compute(&self) -> bool;
}

/// The runtime variant of a participating field: a known constant, or the
/// unknown stored in `slot`.
#[derive(Clone, Copy, Debug, PartialEq, Eq, Structural)]
pub enum FieldKind {
    Known,
    Unknown { slot: usize },
}

/// Number of fields that hold the unknown.
pub open spec fn unknown_count(fields: Seq<FieldKind>) -> nat
    decreases fields.len(),
{
    if fields.len() == 0 {
        0
    } else {
        unknown_count(fields.drop_last()) + if fields.last() is Unknown {
            1nat
        } else {
            0nat
        }
    }
}

/// Slot of the last field that holds the unknown, if any.
pub open spec fn last_unknown_slot(fields: Seq<FieldKind>) -> Option<usize>
    decreases fields.len(),
{
    if fields.len() == 0 {
        None
    } else {
        match fields.last() {
            FieldKind::Unknown { slot } => Some(slot),
            FieldKind::Known => last_unknown_slot(fields.drop_last()),
        }
    }
}

/// Result of the scan over the participating fields: the slot of the only
/// unknown field, or the error that stops the computation.
pub open spec fn scan_result(fields: Seq<FieldKind>) -> Result<usize, Error> {
    if unknown_count(fields) == 0 {
        Err(Error::NoUnknown)
    } else if unknown_count(fields) >= 2 {
        Err(Error::SeveralUnknown)
    } else {
        Ok(last_unknown_slot(fields)->Some_0)
    }
}

/// A prefix holds no more unknown fields than the whole.
proof fn lemma_prefix_count(fields: Seq<FieldKind>, i: int)
    requires
        0 <= i <= fields.len(),
    ensures
        unknown_count(fields.subrange(0, i)) <= unknown_count(fields),
    decreases fields.len(),
{
    if i < fields.len() {
        assert(fields.drop_last().subrange(0, i) =~= fields.subrange(0, i));
        lemma_prefix_count(fields.drop_last(), i);
    } else {
        assert(fields.subrange(0, i) =~= fields);
    }
}

/// The scanning step of the driver: finds the field that holds the unknown.
///
/// Fails with `NoUnknown` when no field holds it and with `SeveralUnknown`
/// when more than one does; otherwise returns the slot of the unknown.
pub fn find_unknown(fields: &Vec<FieldKind>) -> (r: Result<usize, Error>)
    ensures
        r == scan_result(fields@),
        r == Err::<usize, Error>(Error::NoUnknown) <==> unknown_count(fields@) == 0,
        r == Err::<usize, Error>(Error::SeveralUnknown) <==> unknown_count(fields@) >= 2,
        r matches Ok(s) ==> unknown_count(fields@) == 1 && fields@.contains(
            FieldKind::Unknown { slot: s },
        ),
{
    let mut found: Option<usize> = None;
    let mut at: usize = 0;
    let mut i: usize = 0;
    while i < fields.len()
        invariant
            0 <= i <= fields.len(),
            unknown_count(fields@.subrange(0, i as int)) <= 1,
            found is None <==> unknown_count(fields@.subrange(0, i as int)) == 0,
            found == last_unknown_slot(fields@.subrange(0, i as int)),
            found matches Some(s) ==> at < i && fields@[at as int] == (FieldKind::Unknown { slot: s }),
        decreases fields.len() - i,
    {
        assert(fields@.subrange(0, i + 1).drop_last() =~= fields@.subrange(0, i as int));
        match fields[i] {
            FieldKind::Known => {},
            FieldKind::Unknown { slot } => {
                if found.is_some() {
                    proof {
                        lemma_prefix_count(fields@, i + 1);
                    }
                    return Err(Error::SeveralUnknown);
                }
                found = Some(slot);
                at = i;
            },
        }
        i = i + 1;
    }
    assert(fields@.subrange(0, i as int) =~= fields@);
    match found {
        None => Err(Error::NoUnknown),
        Some(s) => {
            Ok(s)
        },
    }
}

/// What the driver returns once it is done.
pub open spec fn outcome(scan: Result<usize, Error>, status: Status) -> Result<usize, Error> {
    match scan {
        Err(e) => Err(e),
        Ok(s) => match status {
            Ok(()) => Ok(s),
            Err(e) => Err(e),
        },
    }
}

/// The final step of the driver. An error of the scan comes first; then
/// the status that the solve step met while the equation was evaluated.
/// On success the result is the slot whose value is the solution.
pub fn conclude(scan: Result<usize, Error>, status: Status) -> (r: Result<usize, Error>)
    ensures
        r == outcome(scan, status),
        scan is Err ==> r == scan,
        r is Ok <==> scan is Ok && status is Ok,
{
    match scan {
        Err(e) => Err(e),
        Ok(s) => match status {
            Ok(()) => Ok(s),
            Err(e) => Err(e),
        },
    }
}

/// A sequence with an unknown field counts at least one.
proof fn lemma_positive_count(fields: Seq<FieldKind>, i: int)
    requires
        0 <= i < fields.len(),
        fields[i] is Unknown,
    ensures
        unknown_count(fields) >= 1,
    decreases fields.len(),
{
    if i < fields.len() - 1 {
        lemma_positive_count(fields.drop_last(), i);
    }
}

/// When every participating field is known, computing fails with
/// `NoUnknown`, whatever the evaluation of the equation met.
pub proof fn lemma_all_known(fields: Seq<FieldKind>, status: Status)
    requires
        forall|i: int| 0 <= i < fields.len() ==> fields[i] is Known,
    ensures
        unknown_count(fields) == 0,
        outcome(scan_result(fields), status) == Err::<usize, Error>(Error::NoUnknown),
    decreases fields.len(),
{
    if fields.len() > 0 {
        lemma_all_known(fields.drop_last(), status);
    }
}

/// When two participating fields hold the unknown, computing fails with
/// `SeveralUnknown`, whatever the other fields and the evaluation hold.
pub proof fn lemma_two_unknowns(fields: Seq<FieldKind>, i: int, j: int, status: Status)
    requires
        0 <= i < j < fields.len(),
        fields[i] is Unknown,
        fields[j] is Unknown,
    ensures
        unknown_count(fields) >= 2,
        outcome(scan_result(fields), status) == Err::<usize, Error>(Error::SeveralUnknown),
    decreases fields.len(),
{
    if j < fields.len() - 1 {
        lemma_two_unknowns(fields.drop_last(), i, j, status);
    } else {
        lemma_positive_count(fields.drop_last(), i);
    }
}

impl Form {
    /// Form of the element that a participating field stands for.
    pub fn of_field(field: FieldKind) -> (r: Form)
        ensures
            r.status is Ok,
            r.slot == match field {
                FieldKind::Known => None,
                FieldKind::Unknown { slot } => Some(slot),
            },
    {
        match field {
            FieldKind::Known => Form::known(),
            FieldKind::Unknown { slot } => Form::unknown(slot),
        }
    }
}

} // verus!
