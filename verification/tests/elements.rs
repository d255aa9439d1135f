use sector_update::elements::{bytes_into_fr, fr_eq, ElementError, Fr, Side};
use sector_update::{compare_elements, dump_elements};

const MODULUS: [u8; 32] = [
    0x01, 0x00, 0x00, 0x00, 0xff, 0xff, 0xff, 0xff, 0xfe, 0x5b, 0xfe, 0xff, 0x02, 0xa4, 0xbd, 0x53,
    0x05, 0xd8, 0xa1, 0x09, 0x08, 0xd8, 0x39, 0x33, 0x48, 0x7d, 0x9d, 0x29, 0x53, 0xa7, 0xed, 0x73,
];

fn below_modulus() -> [u8; 32] {
    let mut b = MODULUS;
    b[0] = 0;
    b
}

fn above_modulus() -> [u8; 32] {
    let mut b = MODULUS;
    b[0] = 2;
    b
}

fn small(n: u8) -> [u8; 32] {
    let mut b = [0u8; 32];
    b[0] = n;
    b
}

fn data(chunks: &[[u8; 32]]) -> Vec<u8> {
    let mut out = Vec::new();
    for c in chunks {
        out.extend_from_slice(c);
    }
    out
}

#[test]
fn field_elements_are_the_values_below_the_modulus() {
    assert_eq!(bytes_into_fr(&[0u8; 32]), Some(Fr { repr: [0u8; 32] }));
    assert_eq!(bytes_into_fr(&small(5)), Some(Fr { repr: small(5) }));
    assert_eq!(bytes_into_fr(&below_modulus()), Some(Fr { repr: below_modulus() }));
    assert_eq!(bytes_into_fr(&MODULUS), None);
    assert_eq!(bytes_into_fr(&above_modulus()), None);
    assert_eq!(bytes_into_fr(&[255u8; 32]), None);
}

#[test]
fn high_bytes_decide_before_low_bytes() {
    let mut ok = [255u8; 32];
    ok[31] = 114;
    assert!(bytes_into_fr(&ok).is_some());
    let mut bad = [255u8; 32];
    bad[31] = 115;
    assert!(bytes_into_fr(&bad).is_none());
    let mut ok2 = [255u8; 32];
    ok2[30] = 236;
    ok2[31] = 115;
    assert!(bytes_into_fr(&ok2).is_some());
    let mut bad2 = [255u8; 32];
    bad2[30] = 237;
    bad2[31] = 115;
    assert!(bytes_into_fr(&bad2).is_none());
}

#[test]
fn a_field_element_has_32_bytes() {
    assert_eq!(bytes_into_fr(&[]), None);
    assert_eq!(bytes_into_fr(&[0u8; 31]), None);
    assert_eq!(bytes_into_fr(&[0u8; 33]), None);
    assert_eq!(bytes_into_fr(&[0u8; 64]), None);
}

#[test]
fn bytes_into_fr_agrees_with_fr32() {
    for b in [[0u8; 32], small(1), below_modulus(), MODULUS, above_modulus(), [255u8; 32]] {
        let outside = fr32::bytes_into_fr(&b).ok();
        let ours = bytes_into_fr(&b);
        assert_eq!(ours.is_some(), outside.is_some());
        if let (Some(fr), Some(o)) = (ours, outside) {
            assert_eq!(fr.repr.to_vec(), fr32::fr_into_bytes(&o));
        }
    }
}

#[test]
fn fr_eq_compares_representations() {
    assert!(fr_eq(&Fr { repr: small(1) }, &Fr { repr: small(1) }));
    assert!(!fr_eq(&Fr { repr: small(1) }, &Fr { repr: small(2) }));
    let mut last = small(1);
    last[31] = 1;
    assert!(!fr_eq(&Fr { repr: small(1) }, &Fr { repr: last }));
}

#[test]
fn dump_lists_every_element_in_order() {
    let d = data(&[small(1), small(2), below_modulus()]);
    assert_eq!(
        dump_elements(&d),
        Ok(vec![Fr { repr: small(1) }, Fr { repr: small(2) }, Fr { repr: below_modulus() }])
    );
}

#[test]
fn dump_of_nothing_is_empty() {
    assert_eq!(dump_elements(&[]), Ok(Vec::new()));
}

#[test]
fn dump_stops_at_the_first_chunk_that_is_no_element() {
    let d = data(&[small(1), MODULUS, small(3), above_modulus()]);
    assert_eq!(dump_elements(&d), Err(ElementError::BadFrBytes { side: Side::First, index: 1 }));
    let d = data(&[[255u8; 32]]);
    assert_eq!(dump_elements(&d), Err(ElementError::BadFrBytes { side: Side::First, index: 0 }));
}

#[test]
fn compare_accepts_equal_elements() {
    let d = data(&[small(1), small(2), below_modulus()]);
    assert_eq!(compare_elements(&d, &d.clone()), Ok(()));
    assert_eq!(compare_elements(&[], &[]), Ok(()));
}

#[test]
fn compare_rejects_different_lengths_first() {
    let a = data(&[MODULUS, small(2)]);
    let b = data(&[MODULUS]);
    assert_eq!(compare_elements(&a, &b), Err(ElementError::SizeMismatch));
    assert_eq!(compare_elements(&[], &b), Err(ElementError::SizeMismatch));
    let mut longer = data(&[small(1)]);
    longer.push(0);
    assert_eq!(compare_elements(&data(&[small(1)]), &longer), Err(ElementError::SizeMismatch));
}

#[test]
fn compare_reports_the_first_difference() {
    let a = data(&[small(1), small(2), small(3), small(4)]);
    let b = data(&[small(1), small(2), small(9), small(8)]);
    assert_eq!(compare_elements(&a, &b), Err(ElementError::DataMismatch { index: 2 }));
}

#[test]
fn compare_looks_at_the_first_input_then_the_second_then_equality() {
    let a = data(&[small(1), MODULUS]);
    let b = data(&[small(1), above_modulus()]);
    assert_eq!(compare_elements(&a, &b), Err(ElementError::BadFrBytes { side: Side::First, index: 1 }));
    let a = data(&[small(1), small(2)]);
    let b = data(&[small(1), MODULUS]);
    assert_eq!(compare_elements(&a, &b), Err(ElementError::BadFrBytes { side: Side::Second, index: 1 }));
    let a = data(&[small(7), MODULUS]);
    let b = data(&[small(1), small(2)]);
    assert_eq!(compare_elements(&a, &b), Err(ElementError::DataMismatch { index: 0 }));
}

#[test]
fn equal_bytes_that_are_no_elements_do_not_compare_equal() {
    let d = data(&[MODULUS]);
    assert_eq!(
        compare_elements(&d, &d.clone()),
        Err(ElementError::BadFrBytes { side: Side::First, index: 0 })
    );
}

#[test]
fn a_bad_chunk_is_found_before_a_partial_one() {
    let mut d = data(&[small(1), MODULUS]);
    d.extend_from_slice(&[1, 2, 3]);
    assert_eq!(dump_elements(&d), Err(ElementError::BadFrBytes { side: Side::First, index: 1 }));

    let mut a = data(&[small(1), small(2)]);
    let mut b = data(&[small(1), small(3)]);
    a.push(9);
    b.push(9);
    assert_eq!(compare_elements(&a, &b), Err(ElementError::DataMismatch { index: 1 }));
}

#[test]
fn lengths_are_compared_before_any_chunk() {
    let a = vec![0u8; 40];
    let b = vec![0u8; 41];
    assert_eq!(compare_elements(&a, &b), Err(ElementError::SizeMismatch));
}
