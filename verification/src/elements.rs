//! Diagnostics over raw element data: a file of 32-byte chunks, each the
//! little-endian representation of a field element.
//!
//! These play no part in a transition. They read data that a transition wrote
//! and say whether it is made of field elements, or whether two files hold the
//! same elements.

use vstd::prelude::*;
use vstd::slice::slice_subrange;

verus! {

/// The number of bytes of a field element's representation.
pub const FR_SIZE: usize = 32;

/// The order of the scalar field of BLS12-381.
pub open spec fn fr_modulus() -> nat {
    0x73eda753299d7d483339d80809a1d80553bda402fffe5bfeffffffff00000001nat
}

/// The number that `bytes` are the little-endian representation of.
pub open spec fn le_value(bytes: Seq<u8>) -> nat
    decreases bytes.len(),
{
    if bytes.len() == 0 {
        0
    } else {
        bytes[0] as nat + 256 * le_value(bytes.subrange(1, bytes.len() as int))
    }
}

/// Whether `bytes` represent a field element: 32 bytes whose value is below
/// the order of the field.
pub open spec fn is_fr_repr(bytes: Seq<u8>) -> bool {
    bytes.len() == 32 && le_value(bytes) < fr_modulus()
}

/// The `index`-th chunk of 32 bytes of `data`.
pub open spec fn chunk(data: Seq<u8>, index: int) -> Seq<u8> {
    data.subrange(32 * index, 32 * index + 32)
}

/// A field element, held as its canonical little-endian representation.
#[derive(Clone, Copy, Debug, PartialEq, Eq)]
pub struct Fr {
    pub repr: [u8; 32],
}

/// One of the two inputs of a comparison.
#[derive(Clone, Copy, Debug, PartialEq, Eq)]
pub enum Side {
    First,
    Second,
}

/// What is wrong with element data.
#[derive(Clone, Copy, Debug, PartialEq, Eq)]
pub enum ElementError {
    /// The two inputs differ in length.
    SizeMismatch,
    /// The chunk `index` of the input `side` represents no field element.
    BadFrBytes { side: Side, index: usize },
    /// The two inputs hold different elements at `index`.
    DataMismatch { index: usize },
}

/// What is wrong with the `index`-th chunks of two inputs, if anything: the
/// first input is looked at before the second, and validity before equality.
pub open spec fn chunk_fault(first: Seq<u8>, second: Seq<u8>, index: int) -> Option<ElementError> {
    if !is_fr_repr(chunk(first, index)) {
        Some(ElementError::BadFrBytes { side: Side::First, index: index as usize })
    } else if !is_fr_repr(chunk(second, index)) {
        Some(ElementError::BadFrBytes { side: Side::Second, index: index as usize })
    } else if chunk(first, index) != chunk(second, index) {
        Some(ElementError::DataMismatch { index: index as usize })
    } else {
        None
    }
}

/// `fr32::bytes_into_fr`, with the element handed back as the 32 bytes of its
/// canonical representation. The outside function accepts exactly the slices
/// of 32 bytes whose little-endian value is below the order of the field, and
/// the element it makes of them has those bytes as its representation.
#[verifier::external_body]
fn fr32_bytes_into_fr(le_bytes: &[u8]) -> (r: Option<[u8; 32]>)
    ensures
        r is Some <==> is_fr_repr(le_bytes@),
        r is Some ==> r.unwrap()@ == le_bytes@,
{
    match fr32::bytes_into_fr(le_bytes) {
        Ok(fr) => Some(fr.to_bytes_le()),
        Err(_) => None,
    }
}

/// Reads one field element from its little-endian representation.
pub fn bytes_into_fr(le_bytes: &[u8]) -> (r: Option<Fr>)
    ensures
        r is Some <==> is_fr_repr(le_bytes@),
        r is Some ==> r.unwrap().repr@ == le_bytes@,
{
    match fr32_bytes_into_fr(le_bytes) {
        Some(repr) => Some(Fr { repr }),
        None => None,
    }
}

/// Whether two elements are the same.
pub fn fr_eq(a: &Fr, b: &Fr) -> (r: bool)
    ensures
        r == (a.repr@ == b.repr@),
{
    let mut i: usize = 0;
    while i < 32
        invariant
            i <= 32,
            forall|j: int| 0 <= j < i ==> a.repr@[j] == b.repr@[j],
        decreases 32 - i,
    {
        if a.repr[i] != b.repr[i] {
            return false;
        }
        i += 1;
    }
    assert(a.repr@ =~= b.repr@);
    true
}

/// Whether `data` is made of whole chunks as far as it is read: it ends with
/// a chunk, or one of its chunks represents no element, at which reading
/// stops.
pub open spec fn readable(data: Seq<u8>) -> bool {
    data.len() % 32 == 0 || exists|i: int|
        0 <= i < data.len() / 32 && !is_fr_repr(#[trigger] chunk(data, i))
}

/// Whether two inputs are made of whole chunks as far as they are compared:
/// they differ in length, or end with a chunk, or have a fault in one of their
/// chunks, at which the comparison stops.
pub open spec fn comparable(first: Seq<u8>, second: Seq<u8>) -> bool {
    first.len() != second.len() || first.len() % 32 == 0 || exists|i: int|
        0 <= i < first.len() / 32 && #[trigger] chunk_fault(first, second, i) is Some
}

/// Reads every element of `data`, in order.
///
/// The result is the list of all elements, or the error for the first chunk
/// that represents none. Data that ends in the middle of a chunk can only be
/// read if it fails before that.
pub fn dump_elements(data: &[u8]) -> (r: Result<Vec<Fr>, ElementError>)
    requires
        readable(data@),
    ensures
        match r {
            Ok(elements) => {
                &&& elements@.len() == data@.len() / 32
                &&& forall|i: int|
                    0 <= i < elements@.len() ==> is_fr_repr(#[trigger] chunk(data@, i))
                &&& forall|i: int|
                    0 <= i < elements@.len() ==> (#[trigger] elements@[i]).repr@ == chunk(data@, i)
            },
            Err(e) => exists|index: int|
                {
                    &&& 0 <= index < data@.len() / 32
                    &&& e == (ElementError::BadFrBytes { side: Side::First, index: index as usize })
                    &&& !is_fr_repr(#[trigger] chunk(data@, index))
                    &&& forall|j: int| 0 <= j < index ==> is_fr_repr(#[trigger] chunk(data@, j))
                },
        },
{
    let count = data.len() / 32;
    let mut elements: Vec<Fr> = Vec::new();
    let mut i: usize = 0;
    while i < count
        invariant
            count == data@.len() / 32,
            data@.len() <= usize::MAX,
            i <= count,
            elements@.len() == i,
            forall|j: int| 0 <= j < i ==> is_fr_repr(#[trigger] chunk(data@, j)),
            forall|j: int| 0 <= j < i ==> (#[trigger] elements@[j]).repr@ == chunk(data@, j),
        decreases count - i,
    {
        let start = i * 32;
        let bytes = slice_subrange(data, start, start + 32);
        assert(bytes@ == chunk(data@, i as int));
        match bytes_into_fr(bytes) {
            Some(fr) => {
                elements.push(fr);
            },
            None => {
                return Err(ElementError::BadFrBytes { side: Side::First, index: i });
            },
        }
        i += 1;
    }
    Ok(elements)
}

/// Compares two inputs element by element.
///
/// Inputs of different lengths are not compared at all. Otherwise the chunks
/// are gone through in order, and the first one with a fault decides: a chunk
/// of the first input, then of the second, that represents no element, or two
/// elements that differ. Inputs that end in the middle of a chunk can only be
/// compared if the comparison fails before that.
pub fn compare_elements(first: &[u8], second: &[u8]) -> (r: Result<(), ElementError>)
    requires
        comparable(first@, second@),
    ensures
        match r {
            Ok(_) => {
                &&& first@.len() == second@.len()
                &&& forall|i: int|
                    0 <= i < first@.len() / 32 ==> #[trigger] chunk_fault(first@, second@, i) is None
            },
            Err(e) => if first@.len() != second@.len() {
                e == ElementError::SizeMismatch
            } else {
                exists|index: int|
                    {
                        &&& 0 <= index < first@.len() / 32
                        &&& #[trigger] chunk_fault(first@, second@, index) == Some(e)
                        &&& forall|j: int|
                            0 <= j < index ==> #[trigger] chunk_fault(first@, second@, j) is None
                    }
            },
        },
{
    if second.len() != first.len() {
        return Err(ElementError::SizeMismatch);
    }
    let count = first.len() / 32;
    let mut i: usize = 0;
    while i < count
        invariant
            count == first@.len() / 32,
            first@.len() <= usize::MAX,
            first@.len() == second@.len(),
            i <= count,
            forall|j: int| 0 <= j < i ==> #[trigger] chunk_fault(first@, second@, j) is None,
        decreases count - i,
    {
        let start = i * 32;
        let a = match bytes_into_fr(slice_subrange(first, start, start + 32)) {
            Some(fr) => fr,
            None => {
                let e = ElementError::BadFrBytes { side: Side::First, index: i };
                assert(chunk_fault(first@, second@, i as int) == Some(e));
                return Err(e);
            },
        };
        let b = match bytes_into_fr(slice_subrange(second, start, start + 32)) {
            Some(fr) => fr,
            None => {
                let e = ElementError::BadFrBytes { side: Side::Second, index: i };
                assert(chunk_fault(first@, second@, i as int) == Some(e));
                return Err(e);
            },
        };
        if !fr_eq(&a, &b) {
            let e = ElementError::DataMismatch { index: i };
            assert(chunk_fault(first@, second@, i as int) == Some(e));
            return Err(e);
        }
        assert(chunk_fault(first@, second@, i as int) is None);
        i += 1;
    }
    Ok(())
}

/// Two inputs that compare equal are the same bytes, and each is made of field
/// elements.
pub proof fn lemma_equal_elements_are_equal_bytes(first: Seq<u8>, second: Seq<u8>)
    requires
        first.len() % 32 == 0,
        first.len() == second.len(),
        forall|i: int| 0 <= i < first.len() / 32 ==> #[trigger] chunk_fault(first, second, i) is None,
    ensures
        first == second,
        forall|i: int| 0 <= i < first.len() / 32 ==> is_fr_repr(#[trigger] chunk(first, i)),
{
    assert forall|k: int| 0 <= k < first.len() implies first[k] == second[k] by {
        let i = k / 32;
        assert(chunk_fault(first, second, i) is None);
        assert(chunk(first, i)[k - 32 * i] == first[k]);
        assert(chunk(second, i)[k - 32 * i] == second[k]);
    }
    assert(first =~= second);
    assert forall|i: int| 0 <= i < first.len() / 32 implies is_fr_repr(
        #[trigger] chunk(first, i),
    ) by {
        assert(chunk_fault(first, second, i) is None);
    }
}

/// Data made of field elements compares equal to itself.
pub proof fn lemma_compare_is_reflexive(data: Seq<u8>, i: int)
    requires
        is_fr_repr(chunk(data, i)),
    ensures
        chunk_fault(data, data, i) is None,
{
}

} // verus!
