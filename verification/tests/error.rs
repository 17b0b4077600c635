use spglib::error::SpglibError;

#[test]
fn code_four_is_atoms_too_close() {
    assert_eq!(SpglibError::from(4), SpglibError::AtomsTooClose);
}

#[test]
fn unrecognized_code_is_unknown() {
    assert_eq!(SpglibError::from(99), SpglibError::Unknown);
}

#[test]
fn every_code_has_its_kind() {
    assert_eq!(SpglibError::from(1), SpglibError::SpacegroupSearchFailed);
    assert_eq!(SpglibError::from(2), SpglibError::CellStandardizationFailed);
    assert_eq!(SpglibError::from(3), SpglibError::SymmetryOperationSearchFailed);
    assert_eq!(SpglibError::from(4), SpglibError::AtomsTooClose);
    assert_eq!(SpglibError::from(5), SpglibError::PointgroupNotFound);
    assert_eq!(SpglibError::from(6), SpglibError::NiggliFailed);
    assert_eq!(SpglibError::from(7), SpglibError::DelaunayFailed);
    assert_eq!(SpglibError::from(8), SpglibError::ArraySizeShortage);
}

#[test]
fn codes_out_of_range_are_unknown() {
    assert_eq!(SpglibError::from(0), SpglibError::Unknown);
    assert_eq!(SpglibError::from(9), SpglibError::Unknown);
    assert_eq!(SpglibError::from(-1), SpglibError::Unknown);
    assert_eq!(SpglibError::from(i32::MAX), SpglibError::Unknown);
    assert_eq!(SpglibError::from(i32::MIN), SpglibError::Unknown);
}

#[test]
fn known_codes_stand_for_distinct_kinds() {
    for a in 1..=8 {
        for b in 1..=8 {
            assert_eq!(SpglibError::from(a) == SpglibError::from(b), a == b);
        }
        assert_ne!(SpglibError::from(a), SpglibError::Unknown);
    }
}

#[test]
fn each_kind_has_its_description() {
    assert_eq!(SpglibError::SpacegroupSearchFailed.message(), "space group search failed");
    assert_eq!(SpglibError::CellStandardizationFailed.message(), "cell standardization failed");
    assert_eq!(
        SpglibError::SymmetryOperationSearchFailed.message(),
        "symmetry operation search failed"
    );
    assert_eq!(SpglibError::AtomsTooClose.message(), "atoms too close");
    assert_eq!(SpglibError::PointgroupNotFound.message(), "pointgroup not found");
    assert_eq!(SpglibError::NiggliFailed.message(), "niggli failed");
    assert_eq!(SpglibError::DelaunayFailed.message(), "delaunay failed");
    assert_eq!(SpglibError::ArraySizeShortage.message(), "array size shortage");
    assert_eq!(SpglibError::Unknown.message(), "unknown error");
}
