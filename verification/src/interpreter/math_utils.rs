//! Checked arithmetic on a tape cell.

use vstd::prelude::*;

verus! {

/// The delta that could not be applied to a cell.
#[derive(Clone, Copy, Debug, PartialEq, Eq, Structural)]
pub struct DeltaError {
    pub right: i8,
}

/// Whether `left + right` is still the value of a byte.
pub open spec fn delta_fits(left: u8, right: int) -> bool {
    0 <= left + right <= u8::MAX
}

/// Adds a signed delta to a byte. A sum outside `0..=255` is an error that
/// carries the delta; nothing wraps around.
pub fn safe_delta_u8(left: u8, right: i8) -> (result: Result<u8, DeltaError>)
    ensures
        delta_fits(left, right as int) ==> result == Ok::<u8, DeltaError>((left + right) as u8),
        !delta_fits(left, right as int) ==> result == Err::<u8, DeltaError>(DeltaError { right }),
{
    let applied = if right > 0 {
        left.checked_add(right as u8)
    } else {
        let unsigned_right: u8 = (-(right as i16)) as u8;
        left.checked_sub(unsigned_right)
    };
    match applied {
        Some(value) => Ok(value),
        None => Err(DeltaError { right }),
    }
}

} // verus!
