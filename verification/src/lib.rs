//! A safe data model around a crystal-symmetry engine.
//!
//! The engine itself is reached through foreign calls that live with the
//! application. This library holds everything that is decided on either side of
//! such a call: which buffers and counts are handed over, how a status code is
//! read, and how the engine's records are turned into owned values.
//!
//! Real numbers are never computed with here, only carried: every type that
//! holds them takes their representation as a parameter `R`.

pub mod error;
pub mod text;
pub mod buffer;
pub mod cell;
pub mod dataset;
pub mod spacegroup;

use crate::buffer::MAX_COUNT;
use crate::error::SpglibError;
use vstd::prelude::*;
use vstd::slice::slice_to_vec;

verus! {

/// The arguments of a search for the space group type of a set of symmetry
/// operations.
#[derive(Clone, Debug)]
pub struct SymmetryCall<R> {
    /// The rotation of each operation.
    pub rotations: Vec<[[i32; 3]; 3]>,
    /// The translation of each operation.
    pub translations: Vec<[R; 3]>,
    /// The number of operations.
    pub n_operations: i32,
}

/// Whether `rotations` rotations and `translations` translations describe one
/// set of operations: as many of one as of the other, and no more than the
/// engine can count.
pub open spec fn operations_agree(rotations: nat, translations: nat) -> bool {
    rotations == translations && rotations <= MAX_COUNT
}

/// The request that searches the Hall number of a set of symmetry operations.
///
/// Rotations and translations that do not agree get no request: they are an
/// `ArraySizeShortage`.
pub fn symmetry_call<R: Copy>(rotations: &[[[i32; 3]; 3]], translations: &[[R; 3]]) -> (call: Result<
    SymmetryCall<R>,
    SpglibError,
>)
    ensures
        match call {
            Ok(c) => {
                &&& operations_agree(rotations@.len(), translations@.len())
                &&& c.rotations@ == rotations@
                &&& c.translations@ == translations@
                &&& c.n_operations == rotations@.len()
            },
            Err(e) => e == SpglibError::ArraySizeShortage && !operations_agree(
                rotations@.len(),
                translations@.len(),
            ),
        },
{
    let n: usize = rotations.len();
    if n != translations.len() || n > MAX_COUNT {
        return Err(SpglibError::ArraySizeShortage);
    }
    let n_operations: i32 = n as i32;
    Ok(
        SymmetryCall {
            rotations: slice_to_vec(rotations),
            translations: slice_to_vec(translations),
            n_operations,
        },
    )
}

/// Reads what the engine's search by symmetry operations returned: the Hall
/// number that it found, or zero where it found none, which is
/// `SpacegroupSearchFailed`.
pub fn hall_number_from_symmetry(found: i32) -> (hall_number: Result<i32, SpglibError>)
    ensures
        match hall_number {
            Ok(n) => found != 0 && n == found,
            Err(e) => found == 0 && e == SpglibError::SpacegroupSearchFailed,
        },
{
    if found == 0 {
        Err(SpglibError::SpacegroupSearchFailed)
    } else {
        Ok(found)
    }
}

} // verus!
