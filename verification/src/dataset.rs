//! The result of a symmetry analysis.

use crate::buffer::{adopt, covers};
use crate::error::SpglibError;
use crate::text::{decodable, decode_text, reads_as};
use vstd::prelude::*;

verus! {

/// A symmetry analysis as the engine returns it: numbers and matrices by
/// value, each symbol as a zero-terminated byte buffer, and each array as a
/// buffer that goes with one of the three counts.
#[derive(Debug)]
pub struct RawDataset<R> {
    /// The number of the space group type in the International Tables.
    pub spacegroup_number: i32,
    /// The serial number of the Hall symbol, from 1 to 530.
    pub hall_number: i32,
    /// The full Hermann-Mauguin symbol. As a buffer.
    pub international_symbol: Vec<u8>,
    /// The Hall symbol. As a buffer.
    pub hall_symbol: Vec<u8>,
    /// The unique axis, setting or cell choice. As a buffer.
    pub choice: Vec<u8>,
    /// The matrix that takes the input cell to the standardized setting.
    pub transformation_matrix: [[R; 3]; 3],
    /// The origin shift that goes with the transformation matrix.
    pub origin_shift: [R; 3],
    /// The number of symmetry operations.
    pub n_operations: i32,
    /// The rotation of each symmetry operation. Counted by `n_operations`.
    pub rotations: Vec<[[i32; 3]; 3]>,
    /// The translation of each symmetry operation. Counted by `n_operations`.
    pub translations: Vec<[R; 3]>,
    /// The number of atoms in the input cell.
    pub n_atoms: i32,
    /// The Wyckoff letter of each atom, as a number. Counted by `n_atoms`.
    pub wyckoffs: Vec<i32>,
    /// For each atom, the index of the symmetrically independent atom that it is equivalent to. Counted by `n_atoms`.
    pub equivalent_atoms: Vec<i32>,
    /// As `equivalent_atoms`, by the symmetry of the primitive cell. Counted by `n_atoms`.
    pub crystallographic_orbits: Vec<i32>,
    /// The basis vectors of a primitive cell in the input cell.
    pub primitive_lattice: [[R; 3]; 3],
    /// For each atom, its index in the primitive cell. Counted by `n_atoms`.
    pub mapping_to_primitive: Vec<i32>,
    /// The number of atoms in the standardized cell.
    pub n_std_atoms: i32,
    /// The lattice of the standardized cell.
    pub std_lattice: [[R; 3]; 3],
    /// The species label of each atom of the standardized cell. Counted by `n_std_atoms`.
    pub std_types: Vec<i32>,
    /// The position of each atom of the standardized cell. Counted by `n_std_atoms`.
    pub std_positions: Vec<[R; 3]>,
    /// The rotation that idealization applied to the cell.
    pub std_rotation_matrix: [[R; 3]; 3],
    /// For each atom of the standardized cell, its index in the primitive cell. Counted by `n_std_atoms`.
    pub std_mapping_to_primitive: Vec<i32>,
    /// The Hermann-Mauguin symbol of the point group. As a buffer.
    pub pointgroup_symbol: Vec<u8>,
}

/// The crystallographic properties of a structure.
///
/// An owned value: nothing in it refers to the engine or to the structure that
/// was analysed.
#[derive(Clone, Debug)]
pub struct Dataset<R> {
    /// The number of the space group type in the International Tables.
    pub spacegroup_number: i32,
    /// The serial number of the Hall symbol, from 1 to 530.
    pub hall_number: i32,
    /// The full Hermann-Mauguin symbol.
    pub international_symbol: String,
    /// The Hall symbol.
    pub hall_symbol: String,
    /// The unique axis, setting or cell choice.
    pub choice: String,
    /// The matrix that takes the input cell to the standardized setting.
    pub transformation_matrix: [[R; 3]; 3],
    /// The origin shift that goes with the transformation matrix.
    pub origin_shift: [R; 3],
    /// The number of symmetry operations.
    pub n_operations: i32,
    /// The rotation of each symmetry operation.
    pub rotations: Vec<[[i32; 3]; 3]>,
    /// The translation of each symmetry operation.
    pub translations: Vec<[R; 3]>,
    /// The number of atoms in the input cell.
    pub n_atoms: i32,
    /// The Wyckoff letter of each atom, as a number.
    pub wyckoffs: Vec<i32>,
    /// The site symmetry symbols. The analysis does not give them: always empty.
    pub site_symmetry_symbols: Vec<String>,
    /// For each atom, the index of the symmetrically independent atom that it is equivalent to.
    pub equivalent_atoms: Vec<i32>,
    /// As `equivalent_atoms`, by the symmetry of the primitive cell.
    pub crystallographic_orbits: Vec<i32>,
    /// The basis vectors of a primitive cell in the input cell.
    pub primitive_lattice: [[R; 3]; 3],
    /// For each atom, its index in the primitive cell.
    pub mapping_to_primitive: Vec<i32>,
    /// The number of atoms in the standardized cell.
    pub n_std_atoms: i32,
    /// The lattice of the standardized cell.
    pub std_lattice: [[R; 3]; 3],
    /// The species label of each atom of the standardized cell.
    pub std_types: Vec<i32>,
    /// The position of each atom of the standardized cell.
    pub std_positions: Vec<[R; 3]>,
    /// The rotation that idealization applied to the cell.
    pub std_rotation_matrix: [[R; 3]; 3],
    /// For each atom of the standardized cell, its index in the primitive cell.
    pub std_mapping_to_primitive: Vec<i32>,
    /// The Hermann-Mauguin symbol of the point group.
    pub pointgroup_symbol: String,
}

impl<R: Copy> RawDataset<R> {
    /// Whether every symbol of the record holds a text.
    pub open spec fn texts_decodable(&self) -> bool {
        &&& decodable(self.international_symbol@)
        &&& decodable(self.hall_symbol@)
        &&& decodable(self.choice@)
        &&& decodable(self.pointgroup_symbol@)
    }

    /// Whether every array of the record has the entries that its count
    /// announces.
    pub open spec fn arrays_covered(&self) -> bool {
        &&& covers(self.rotations@.len(), self.n_operations as int)
        &&& covers(self.translations@.len(), self.n_operations as int)
        &&& covers(self.wyckoffs@.len(), self.n_atoms as int)
        &&& covers(self.equivalent_atoms@.len(), self.n_atoms as int)
        &&& covers(self.crystallographic_orbits@.len(), self.n_atoms as int)
        &&& covers(self.mapping_to_primitive@.len(), self.n_atoms as int)
        &&& covers(self.std_types@.len(), self.n_std_atoms as int)
        &&& covers(self.std_positions@.len(), self.n_std_atoms as int)
        &&& covers(self.std_mapping_to_primitive@.len(), self.n_std_atoms as int)
    }

    /// Why the record does not give a dataset, if it does not: `Unknown` where
    /// a symbol holds no text, else `ArraySizeShortage` where an array is
    /// shorter than its count or the count is negative.
    pub open spec fn failure(&self) -> Option<SpglibError> {
        if !self.texts_decodable() {
            Some(SpglibError::Unknown)
        } else if !self.arrays_covered() {
            Some(SpglibError::ArraySizeShortage)
        } else {
            None
        }
    }
}

impl<R: Copy> Dataset<R> {
    /// Whether this dataset is what the record `raw` says: numbers and matrices
    /// as they are, each symbol the text that its buffer holds, each array the
    /// counted entries of its buffer, and no site symmetry symbols.
    pub open spec fn marshals(&self, raw: &RawDataset<R>) -> bool {
        &&& self.spacegroup_number == raw.spacegroup_number
        &&& self.hall_number == raw.hall_number
        &&& reads_as(raw.international_symbol@, self.international_symbol@)
        &&& reads_as(raw.hall_symbol@, self.hall_symbol@)
        &&& reads_as(raw.choice@, self.choice@)
        &&& self.transformation_matrix == raw.transformation_matrix
        &&& self.origin_shift == raw.origin_shift
        &&& self.n_operations == raw.n_operations
        &&& self.rotations@ == raw.rotations@.take(raw.n_operations as int)
        &&& self.translations@ == raw.translations@.take(raw.n_operations as int)
        &&& self.n_atoms == raw.n_atoms
        &&& self.wyckoffs@ == raw.wyckoffs@.take(raw.n_atoms as int)
        &&& self.site_symmetry_symbols@.len() == 0
        &&& self.equivalent_atoms@ == raw.equivalent_atoms@.take(raw.n_atoms as int)
        &&& self.crystallographic_orbits@ == raw.crystallographic_orbits@.take(raw.n_atoms as int)
        &&& self.primitive_lattice == raw.primitive_lattice
        &&& self.mapping_to_primitive@ == raw.mapping_to_primitive@.take(raw.n_atoms as int)
        &&& self.n_std_atoms == raw.n_std_atoms
        &&& self.std_lattice == raw.std_lattice
        &&& self.std_types@ == raw.std_types@.take(raw.n_std_atoms as int)
        &&& self.std_positions@ == raw.std_positions@.take(raw.n_std_atoms as int)
        &&& self.std_rotation_matrix == raw.std_rotation_matrix
        &&& self.std_mapping_to_primitive@ == raw.std_mapping_to_primitive@.take(raw.n_std_atoms as int)
        &&& reads_as(raw.pointgroup_symbol@, self.pointgroup_symbol@)
    }

    /// Whether every array has the length that its count announces: one entry
    /// per symmetry operation, per atom of the input, or per atom of the
    /// standardized cell.
    pub open spec fn consistent(&self) -> bool {
        &&& self.rotations@.len() == self.n_operations
        &&& self.translations@.len() == self.n_operations
        &&& self.wyckoffs@.len() == self.n_atoms
        &&& self.equivalent_atoms@.len() == self.n_atoms
        &&& self.crystallographic_orbits@.len() == self.n_atoms
        &&& self.mapping_to_primitive@.len() == self.n_atoms
        &&& self.std_types@.len() == self.n_std_atoms
        &&& self.std_positions@.len() == self.n_std_atoms
        &&& self.std_mapping_to_primitive@.len() == self.n_std_atoms
    }

    /// Turns the engine's record into an owned dataset.
    ///
    /// The record is consumed, and each of its arrays is taken over once. The
    /// symbols are decoded first, so that a record with both faults is
    /// `Unknown`.
    pub fn try_from(raw: RawDataset<R>) -> (dataset: Result<Dataset<R>, SpglibError>)
        ensures
            match dataset {
                Ok(d) => raw.failure() is None && d.marshals(&raw) && d.consistent(),
                Err(e) => raw.failure() == Some(e),
            },
    {
        let international_symbol = match decode_text(raw.international_symbol.as_slice()) {
            Ok(s) => s,
            Err(e) => {
                return Err(e);
            },
        };
        let hall_symbol = match decode_text(raw.hall_symbol.as_slice()) {
            Ok(s) => s,
            Err(e) => {
                return Err(e);
            },
        };
        let choice = match decode_text(raw.choice.as_slice()) {
            Ok(s) => s,
            Err(e) => {
                return Err(e);
            },
        };
        let pointgroup_symbol = match decode_text(raw.pointgroup_symbol.as_slice()) {
            Ok(s) => s,
            Err(e) => {
                return Err(e);
            },
        };
        let rotations = match adopt(raw.rotations, raw.n_operations) {
            Ok(v) => v,
            Err(e) => {
                return Err(e);
            },
        };
        let translations = match adopt(raw.translations, raw.n_operations) {
            Ok(v) => v,
            Err(e) => {
                return Err(e);
            },
        };
        let wyckoffs = match adopt(raw.wyckoffs, raw.n_atoms) {
            Ok(v) => v,
            Err(e) => {
                return Err(e);
            },
        };
        let equivalent_atoms = match adopt(raw.equivalent_atoms, raw.n_atoms) {
            Ok(v) => v,
            Err(e) => {
                return Err(e);
            },
        };
        let crystallographic_orbits = match adopt(raw.crystallographic_orbits, raw.n_atoms) {
            Ok(v) => v,
            Err(e) => {
                return Err(e);
            },
        };
        let mapping_to_primitive = match adopt(raw.mapping_to_primitive, raw.n_atoms) {
            Ok(v) => v,
            Err(e) => {
                return Err(e);
            },
        };
        let std_types = match adopt(raw.std_types, raw.n_std_atoms) {
            Ok(v) => v,
            Err(e) => {
                return Err(e);
            },
        };
        let std_positions = match adopt(raw.std_positions, raw.n_std_atoms) {
            Ok(v) => v,
            Err(e) => {
                return Err(e);
            },
        };
        let std_mapping_to_primitive = match adopt(raw.std_mapping_to_primitive, raw.n_std_atoms) {
            Ok(v) => v,
            Err(e) => {
                return Err(e);
            },
        };
        let site_symmetry_symbols: Vec<String> = Vec::new();
        Ok(
            Dataset {
                spacegroup_number: raw.spacegroup_number,
                hall_number: raw.hall_number,
                international_symbol,
                hall_symbol,
                choice,
                transformation_matrix: raw.transformation_matrix,
                origin_shift: raw.origin_shift,
                n_operations: raw.n_operations,
                rotations,
                translations,
                n_atoms: raw.n_atoms,
                wyckoffs,
                site_symmetry_symbols,
                equivalent_atoms,
                crystallographic_orbits,
                primitive_lattice: raw.primitive_lattice,
                mapping_to_primitive,
                n_std_atoms: raw.n_std_atoms,
                std_lattice: raw.std_lattice,
                std_types,
                std_positions,
                std_rotation_matrix: raw.std_rotation_matrix,
                std_mapping_to_primitive,
                pointgroup_symbol,
            },
        )
    }

    /// What an analysis comes to, given what the engine returned: its record,
    /// or no record and the status code that it then reports.
    pub open spec fn outcome_failure(returned: &Option<RawDataset<R>>, status: i32) -> Option<
        SpglibError,
    > {
        match returned {
            Some(raw) => raw.failure(),
            None => Some(SpglibError::of_code(status as int)),
        }
    }

    /// Completes the analysis of a structure with what the engine returned.
    ///
    /// Where the engine gave a record, the dataset is made of it as `try_from`
    /// does. Where it gave none, the analysis failed, and the failure is the
    /// kind that the engine's status code stands for.
    pub fn new(returned: Option<RawDataset<R>>, status: i32) -> (dataset: Result<Dataset<R>, SpglibError>)
        ensures
            match dataset {
                Ok(d) => {
                    &&& returned matches Some(raw) && raw.failure() is None && d.marshals(&raw)
                    &&& d.consistent()
                },
                Err(e) => Self::outcome_failure(&returned, status) == Some(e),
            },
    {
        match returned {
            Some(raw) => Dataset::try_from(raw),
            None => Err(SpglibError::from(status)),
        }
    }

    /// In a dataset that a record gave, the symmetry operations, the per-atom
    /// tables and the standardized cell each have as many entries as their
    /// count says.
    pub proof fn lemma_marshaled_consistent(dataset: Dataset<R>, raw: RawDataset<R>)
        requires
            raw.failure() is None,
            dataset.marshals(&raw),
        ensures
            dataset.consistent(),
            dataset.rotations@.len() == dataset.translations@.len(),
            dataset.wyckoffs@.len() == dataset.equivalent_atoms@.len(),
            dataset.wyckoffs@.len() == dataset.crystallographic_orbits@.len(),
            dataset.std_types@.len() == dataset.std_positions@.len(),
    {
    }
}

} // verus!
