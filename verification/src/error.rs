//! Failure kinds of the symmetry engine.

use vstd::prelude::*;

verus! {

/// The ways in which a request to the engine can fail.
#[derive(Clone, Copy, Debug, PartialEq, Eq, Structural)]
pub enum SpglibError {
    /// The space group search failed.
    SpacegroupSearchFailed,
    /// The cell standardization routine failed.
    CellStandardizationFailed,
    /// The symmetry operation search failed.
    SymmetryOperationSearchFailed,
    /// Atoms in a cell occupy the same site.
    AtomsTooClose,
    /// The point group search failed.
    PointgroupNotFound,
    /// The Niggli reduction routine failed.
    NiggliFailed,
    /// The Delaunay reduction routine failed.
    DelaunayFailed,
    /// An array has fewer entries than the count that goes with it.
    ArraySizeShortage,
    /// Any other failure.
    Unknown,
}

impl SpglibError {
    /// The failure kind that an engine status code stands for.
    pub open spec fn of_code(code: int) -> SpglibError {
        if code == 1 {
            SpglibError::SpacegroupSearchFailed
        } else if code == 2 {
            SpglibError::CellStandardizationFailed
        } else if code == 3 {
            SpglibError::SymmetryOperationSearchFailed
        } else if code == 4 {
            SpglibError::AtomsTooClose
        } else if code == 5 {
            SpglibError::PointgroupNotFound
        } else if code == 6 {
            SpglibError::NiggliFailed
        } else if code == 7 {
            SpglibError::DelaunayFailed
        } else if code == 8 {
            SpglibError::ArraySizeShortage
        } else {
            SpglibError::Unknown
        }
    }

    /// The fixed description of a failure kind.
    pub open spec fn description(self) -> Seq<char> {
        match self {
            SpglibError::SpacegroupSearchFailed => "space group search failed"@,
            SpglibError::CellStandardizationFailed => "cell standardization failed"@,
            SpglibError::SymmetryOperationSearchFailed => "symmetry operation search failed"@,
            SpglibError::AtomsTooClose => "atoms too close"@,
            SpglibError::PointgroupNotFound => "pointgroup not found"@,
            SpglibError::NiggliFailed => "niggli failed"@,
            SpglibError::DelaunayFailed => "delaunay failed"@,
            SpglibError::ArraySizeShortage => "array size shortage"@,
            SpglibError::Unknown => "unknown error"@,
        }
    }

    /// Returns the human-readable description of this failure kind.
    pub fn message(&self) -> (text: String)
        ensures
            text@ == self.description(),
    {
        match self {
            SpglibError::SpacegroupSearchFailed => "space group search failed".to_owned(),
            SpglibError::CellStandardizationFailed => "cell standardization failed".to_owned(),
            SpglibError::SymmetryOperationSearchFailed => {
                "symmetry operation search failed".to_owned()
            },
            SpglibError::AtomsTooClose => "atoms too close".to_owned(),
            SpglibError::PointgroupNotFound => "pointgroup not found".to_owned(),
            SpglibError::NiggliFailed => "niggli failed".to_owned(),
            SpglibError::DelaunayFailed => "delaunay failed".to_owned(),
            SpglibError::ArraySizeShortage => "array size shortage".to_owned(),
            SpglibError::Unknown => "unknown error".to_owned(),
        }
    }

    /// Every failure kind but `Unknown` belongs to exactly one status code:
    /// two codes that stand for the same kind are equal, unless that kind is
    /// `Unknown`, which every code outside `1..=8` stands for.
    pub proof fn lemma_codes_one_to_one(a: int, b: int)
        ensures
            (1 <= a <= 8) <==> Self::of_code(a) != SpglibError::Unknown,
            Self::of_code(a) == Self::of_code(b) && Self::of_code(a) != SpglibError::Unknown
                ==> a == b,
    {
    }
}

impl From<i32> for SpglibError {
    /// Reads an engine status code. Every integer stands for one kind.
    fn from(code: i32) -> (kind: SpglibError) {
        match code {
            1 => SpglibError::SpacegroupSearchFailed,
            2 => SpglibError::CellStandardizationFailed,
            3 => SpglibError::SymmetryOperationSearchFailed,
            4 => SpglibError::AtomsTooClose,
            5 => SpglibError::PointgroupNotFound,
            6 => SpglibError::NiggliFailed,
            7 => SpglibError::DelaunayFailed,
            8 => SpglibError::ArraySizeShortage,
            _ => SpglibError::Unknown,
        }
    }
}

impl vstd::std_specs::convert::FromSpecImpl<i32> for SpglibError {
    open spec fn obeys_from_spec() -> bool {
        true
    }

    open spec fn from_spec(code: i32) -> SpglibError {
        SpglibError::of_code(code as int)
    }
}

} // verus!
