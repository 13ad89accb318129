use compute::equation::{conclude, find_unknown, FieldKind};
use compute::error::Error;
use compute::form::Form;

#[test]
fn no_fields_means_no_unknown() {
    assert_eq!(find_unknown(&vec![]), Err(Error::NoUnknown));
}

#[test]
fn all_known_fields_mean_no_unknown() {
    let fields = vec![FieldKind::Known, FieldKind::Known];
    assert_eq!(find_unknown(&fields), Err(Error::NoUnknown));
    assert_eq!(conclude(find_unknown(&fields), Ok(())), Err(Error::NoUnknown));
}

#[test]
fn two_unknown_fields_are_refused() {
    let fields = vec![FieldKind::Unknown { slot: 0 }, FieldKind::Unknown { slot: 1 }];
    assert_eq!(find_unknown(&fields), Err(Error::SeveralUnknown));
    assert_eq!(conclude(find_unknown(&fields), Ok(())), Err(Error::SeveralUnknown));
    let fields = vec![
        FieldKind::Unknown { slot: 0 },
        FieldKind::Known,
        FieldKind::Unknown { slot: 1 },
        FieldKind::Unknown { slot: 2 },
    ];
    assert_eq!(find_unknown(&fields), Err(Error::SeveralUnknown));
}

#[test]
fn single_unknown_field_is_found() {
    let fields = vec![FieldKind::Known, FieldKind::Unknown { slot: 9 }, FieldKind::Known];
    assert_eq!(find_unknown(&fields), Ok(9));
}

#[test]
fn conclude_orders_errors() {
    assert_eq!(conclude(Ok(2), Ok(())), Ok(2));
    assert_eq!(conclude(Ok(2), Err(Error::DivisionByZero)), Err(Error::DivisionByZero));
    assert_eq!(
        conclude(Err(Error::SeveralUnknown), Err(Error::SquareForbidden)),
        Err(Error::SeveralUnknown)
    );
    assert_eq!(conclude(Err(Error::NoUnknown), Ok(())), Err(Error::NoUnknown));
}

#[test]
fn field_forms() {
    assert_eq!(Form::of_field(FieldKind::Known), Form::known());
    assert_eq!(Form::of_field(FieldKind::Unknown { slot: 3 }), Form::unknown(3));
}

#[test]
fn element1_equals_element2_plus_element3() {
    // element1 is a plain known number, element2 the unknown, element3 known
    let fields = vec![FieldKind::Unknown { slot: 0 }, FieldKind::Known];
    let scan = find_unknown(&fields);
    assert_eq!(scan, Ok(0));
    let lhs = Form::known();
    let rhs = Form::of_field(fields[0]).combine(&Form::of_field(fields[1]));
    // the difference 100 - (x + 30) has coefficient -1
    let target = lhs.solve_target(&rhs, false);
    assert_eq!(target, Some(0));
    let status = lhs.combine(&rhs).status;
    assert_eq!(conclude(scan, status), Ok(0));
}

#[test]
fn arithmetic_error_surfaces_after_scan() {
    let fields = vec![FieldKind::Unknown { slot: 0 }, FieldKind::Known];
    let x = Form::of_field(fields[0]);
    let squared = x.product(&x);
    let status = Form::known().combine(&squared).status;
    assert_eq!(conclude(find_unknown(&fields), status), Err(Error::SquareForbidden));
}
