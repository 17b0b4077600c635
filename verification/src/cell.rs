//! A crystal structure: a lattice and the atoms in it.

use crate::buffer::{adopt, covers, MAX_COUNT};
use crate::error::SpglibError;
use vstd::prelude::*;
use vstd::slice::slice_to_vec;

verus! {

/// Whether `positions` coordinates and `types` labels describe the atoms of
/// one structure: one label for each position, at least one atom, and no more
/// than the engine can count.
pub open spec fn atoms_agree(positions: nat, types: nat) -> bool {
    positions == types && 1 <= positions <= MAX_COUNT
}

/// An atomic structure with its lattice.
///
/// A structure is well formed when `atoms_agree` holds of its fields. `new`
/// returns only such structures, and the transformations keep them so.
#[derive(Clone, Debug)]
pub struct Cell<R> {
    /// The three lattice vectors, one per row.
    pub lattice: [[R; 3]; 3],
    /// The fractional coordinates of each atom.
    pub positions: Vec<[R; 3]>,
    /// The label of each atom's species.
    pub types: Vec<i32>,
}

/// What is handed to the engine for a structure, and what the engine leaves
/// there: the three buffers and the count of atoms that goes with them.
#[derive(Clone, Debug)]
pub struct CellBuffers<R> {
    /// The lattice buffer.
    pub lattice: [[R; 3]; 3],
    /// The buffer of positions.
    pub positions: Vec<[R; 3]>,
    /// The buffer of species labels.
    pub types: Vec<i32>,
    /// The number of atoms in the two buffers.
    pub n_atoms: i32,
}

/// The arguments of one standardization request.
#[derive(Clone, Debug)]
pub struct StandardizeCall<R> {
    /// The buffers that the engine works on.
    pub cell: CellBuffers<R>,
    /// 1 to ask for a primitive cell, 0 otherwise.
    pub to_primitive: i32,
    /// 1 to keep the engine from idealizing the cell, 0 otherwise.
    pub no_idealize: i32,
}

/// The engine's encoding of a yes-or-no argument.
pub open spec fn flag(set: bool) -> int {
    if set {
        1
    } else {
        0
    }
}

impl<R: Copy> CellBuffers<R> {
    /// Whether these buffers hold the fields of `cell`, with its atom count.
    pub open spec fn holds(&self, cell: &Cell<R>) -> bool {
        &&& self.lattice == cell.lattice
        &&& self.positions@ == cell.positions@
        &&& self.types@ == cell.types@
        &&& self.n_atoms == cell.positions@.len()
    }
}

impl<R: Copy> Cell<R> {
    /// The invariant of a structure.
    pub open spec fn well_formed(&self) -> bool {
        atoms_agree(self.positions@.len(), self.types@.len())
    }

    /// Builds a structure from its lattice, positions and species labels.
    ///
    /// Positions and labels that do not agree are an `ArraySizeShortage`.
    pub fn new(lattice: &[[R; 3]; 3], positions: &[[R; 3]], types: &[i32]) -> (cell: Result<
        Cell<R>,
        SpglibError,
    >)
        ensures
            match cell {
                Ok(c) => {
                    &&& atoms_agree(positions@.len(), types@.len())
                    &&& c.well_formed()
                    &&& c.lattice == *lattice
                    &&& c.positions@ == positions@
                    &&& c.types@ == types@
                },
                Err(e) => e == SpglibError::ArraySizeShortage && !atoms_agree(
                    positions@.len(),
                    types@.len(),
                ),
            },
    {
        let n: usize = positions.len();
        if n != types.len() || n < 1 || n > MAX_COUNT {
            return Err(SpglibError::ArraySizeShortage);
        }
        Ok(Cell { lattice: *lattice, positions: slice_to_vec(positions), types: slice_to_vec(types) })
    }

    /// Tells whether the structure is well formed.
    pub fn is_well_formed(&self) -> (ok: bool)
        ensures
            ok == self.well_formed(),
    {
        let n: usize = self.positions.len();
        n == self.types.len() && 1 <= n && n <= MAX_COUNT
    }

    /// The buffers to hand to the engine for this structure.
    ///
    /// A structure that is not well formed gets none, so that no request is
    /// ever made for it: it is an `ArraySizeShortage`.
    pub fn buffers(&self) -> (handed: Result<CellBuffers<R>, SpglibError>)
        ensures
            match handed {
                Ok(b) => self.well_formed() && b.holds(self),
                Err(e) => e == SpglibError::ArraySizeShortage && !self.well_formed(),
            },
    {
        if !self.is_well_formed() {
            return Err(SpglibError::ArraySizeShortage);
        }
        let n_atoms: i32 = self.positions.len() as i32;
        Ok(
            CellBuffers {
                lattice: self.lattice,
                positions: slice_to_vec(self.positions.as_slice()),
                types: slice_to_vec(self.types.as_slice()),
                n_atoms,
            },
        )
    }

    /// The request that standardizes this structure.
    pub fn standardize_call(&self, to_primitive: bool, no_idealize: bool) -> (call: Result<
        StandardizeCall<R>,
        SpglibError,
    >)
        ensures
            match call {
                Ok(c) => {
                    &&& self.well_formed()
                    &&& c.cell.holds(self)
                    &&& c.to_primitive == flag(to_primitive)
                    &&& c.no_idealize == flag(no_idealize)
                },
                Err(e) => e == SpglibError::ArraySizeShortage && !self.well_formed(),
            },
    {
        let cell = match self.buffers() {
            Ok(b) => b,
            Err(e) => {
                return Err(e);
            },
        };
        let to_primitive: i32 = if to_primitive {
            1
        } else {
            0
        };
        let no_idealize: i32 = if no_idealize {
            1
        } else {
            0
        };
        Ok(StandardizeCall { cell, to_primitive, no_idealize })
    }

    /// Whether this structure is what the engine left in `written`: its
    /// lattice, and the first `n_atoms` positions and labels.
    pub open spec fn taken_from(&self, written: &CellBuffers<R>) -> bool {
        &&& self.lattice == written.lattice
        &&& self.positions@ == written.positions@.take(written.n_atoms as int)
        &&& self.types@ == written.types@.take(written.n_atoms as int)
    }

    /// Why a standardization did not give a structure, if it did not.
    ///
    /// The engine returns the number of atoms that it left in the buffers, and
    /// zero where it failed. A count that the buffers cannot cover is an
    /// `ArraySizeShortage`.
    pub open spec fn standardize_failure(written: &CellBuffers<R>) -> Option<SpglibError> {
        if written.n_atoms == 0 {
            Some(SpglibError::CellStandardizationFailed)
        } else if !covers(written.positions@.len(), written.n_atoms as int) || !covers(
            written.types@.len(),
            written.n_atoms as int,
        ) {
            Some(SpglibError::ArraySizeShortage)
        } else {
            None
        }
    }

    /// Completes a standardization with what the engine returned: the buffers
    /// as it left them, and as `n_atoms` its return value.
    ///
    /// On success the lattice, the positions and the labels are replaced by the
    /// standardized ones, and the structure has `n_atoms` atoms. On failure it
    /// is left as it was.
    pub fn standardize(&mut self, written: CellBuffers<R>) -> (done: Result<(), SpglibError>)
        ensures
            match done {
                Ok(_) => {
                    &&& Self::standardize_failure(&written) is None
                    &&& final(self).taken_from(&written)
                    &&& final(self).well_formed()
                },
                Err(e) => Self::standardize_failure(&written) == Some(e) && *final(self) == *old(
                    self,
                ),
            },
    {
        let n_atoms: i32 = written.n_atoms;
        if n_atoms == 0 {
            return Err(SpglibError::CellStandardizationFailed);
        }
        let positions = match adopt(written.positions, n_atoms) {
            Ok(p) => p,
            Err(e) => {
                return Err(e);
            },
        };
        let types = match adopt(written.types, n_atoms) {
            Ok(t) => t,
            Err(e) => {
                return Err(e);
            },
        };
        self.lattice = written.lattice;
        self.positions = positions;
        self.types = types;
        Ok(())
    }

    /// A standardization that changed nothing leaves the structure as it was:
    /// where the engine returns the buffers of a well-formed structure as they
    /// were handed to it, with the same count, the standardization succeeds and
    /// the structure that comes of it has the same lattice, positions and
    /// labels.
    pub proof fn lemma_standardize_fixed_point(before: Cell<R>, written: CellBuffers<R>, after: Cell<R>)
        requires
            before.well_formed(),
            written.holds(&before),
            after.taken_from(&written),
        ensures
            Self::standardize_failure(&written) is None,
            after.lattice == before.lattice,
            after.positions@ == before.positions@,
            after.types@ == before.types@,
    {
        assert(written.positions@.take(written.n_atoms as int) =~= written.positions@);
        assert(written.types@.take(written.n_atoms as int) =~= written.types@);
    }

    /// Completes a Delaunay reduction with the engine's return value and the
    /// lattice buffer as the engine left it.
    ///
    /// A status of zero is `DelaunayFailed` and changes nothing. Any other
    /// status replaces the lattice; positions and labels stay.
    pub fn delaunay_reduce(&mut self, status: i32, reduced: [[R; 3]; 3]) -> (done: Result<
        (),
        SpglibError,
    >)
        ensures
            match done {
                Ok(_) => {
                    &&& status != 0
                    &&& final(self).lattice == reduced
                    &&& final(self).positions == old(self).positions
                    &&& final(self).types == old(self).types
                },
                Err(e) => {
                    &&& status == 0
                    &&& e == SpglibError::DelaunayFailed
                    &&& *final(self) == *old(self)
                },
            },
    {
        if status == 0 {
            return Err(SpglibError::DelaunayFailed);
        }
        self.lattice = reduced;
        Ok(())
    }

    /// Completes a Niggli reduction with the engine's return value and the
    /// lattice buffer as the engine left it.
    ///
    /// A status of zero is `NiggliFailed` and changes nothing. Any other
    /// status replaces the lattice; positions and labels stay.
    pub fn niggli_reduce(&mut self, status: i32, reduced: [[R; 3]; 3]) -> (done: Result<
        (),
        SpglibError,
    >)
        ensures
            match done {
                Ok(_) => {
                    &&& status != 0
                    &&& final(self).lattice == reduced
                    &&& final(self).positions == old(self).positions
                    &&& final(self).types == old(self).types
                },
                Err(e) => {
                    &&& status == 0
                    &&& e == SpglibError::NiggliFailed
                    &&& *final(self) == *old(self)
                },
            },
    {
        if status == 0 {
            return Err(SpglibError::NiggliFailed);
        }
        self.lattice = reduced;
        Ok(())
    }
}

} // verus!
