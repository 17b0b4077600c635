//! Taking over the engine's variable-length arrays.
//!
//! The engine hands out an array together with the count of its entries. An
//! array is taken over once, by value: the buffer is consumed, and what comes
//! back is an owned container of exactly the counted entries.

use crate::error::SpglibError;
use vstd::prelude::*;

verus! {

/// The largest count that the engine's 32-bit integers can express.
pub const MAX_COUNT: usize = 2147483647;

/// Whether a buffer of `len` entries can give `count` of them.
pub open spec fn covers(len: nat, count: int) -> bool {
    0 <= count <= len
}

/// Takes over the first `count` entries of `buffer`.
///
/// A negative count, or one beyond the buffer's length, is an
/// `ArraySizeShortage`.
pub fn adopt<T>(buffer: Vec<T>, count: i32) -> (owned: Result<Vec<T>, SpglibError>)
    ensures
        match owned {
            Ok(entries) => covers(buffer@.len(), count as int) && entries@ == buffer@.take(
                count as int,
            ),
            Err(e) => e == SpglibError::ArraySizeShortage && !covers(buffer@.len(), count as int),
        },
{
    if count < 0 {
        return Err(SpglibError::ArraySizeShortage);
    }
    let wanted: usize = count as usize;
    if wanted > buffer.len() {
        return Err(SpglibError::ArraySizeShortage);
    }
    let mut entries = buffer;
    entries.truncate(wanted);
    Ok(entries)
}

} // verus!
