//! Pure decisions of a read/subscribe session: validating a caller-supplied
//! selection index, and decoding a delivered sequence of notification
//! payloads one by one, in delivery order.

use vstd::prelude::*;
use crate::model::{DecodeError, ReadOnlyProperties};

verus! {

/// Why a caller-supplied selection was rejected.
#[derive(Debug, Clone, Copy, PartialEq, Eq, Structural)]
pub enum SelectionError {
    /// The index lay outside the enumerated list of `len` entries.
    OutOfRange { len: usize, index: usize },
}

/// Validate a caller-supplied index into an enumerated list of `len`
/// entries. Returns the index exactly when it is in range, and
/// `OutOfRange` carrying both the list length and the offending index
/// otherwise; no partial action is taken either way.
pub fn validate_selection(len: usize, index: usize) -> (r: Result<usize, SelectionError>)
    ensures
        index < len ==> r == Ok::<usize, SelectionError>(index),
        index >= len ==> r == Err::<usize, SelectionError>(
            (SelectionError::OutOfRange { len, index }),
        ),
{
    if index < len {
        Ok(index)
    } else {
        Err(SelectionError::OutOfRange { len, index })
    }
}

/// Decode a delivered sequence of notification payloads. Each payload is
/// decoded independently, in delivery order: the result holds exactly one
/// outcome per payload, and an invalid-length payload neither suppresses
/// nor alters the outcome of any other.
pub fn decode_all(payloads: &Vec<Vec<u8>>) -> (outcomes: Vec<
    Result<ReadOnlyProperties, DecodeError>,
>)
    ensures
        outcomes@.len() == payloads@.len(),
        forall|i: int|
            0 <= i < payloads@.len() ==> outcomes@[i] == ReadOnlyProperties::spec_decode_outcome(
                payloads@[i]@,
            ),
{
    let mut outcomes: Vec<Result<ReadOnlyProperties, DecodeError>> = Vec::new();
    let mut k: usize = 0;
    while k < payloads.len()
        invariant
            k <= payloads@.len(),
            outcomes@.len() == k,
            forall|i: int|
                0 <= i < k ==> outcomes@[i] == ReadOnlyProperties::spec_decode_outcome(
                    payloads@[i]@,
                ),
        decreases payloads@.len() - k,
    {
        let outcome = ReadOnlyProperties::decode(payloads[k].as_slice());
        outcomes.push(outcome);
        k += 1;
    }
    outcomes
}

} // verus!
