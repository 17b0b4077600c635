use spglib::cell::{Cell, CellBuffers};
use spglib::error::SpglibError;
use spglib::{hall_number_from_symmetry, symmetry_call};

fn bcc() -> Cell<f64> {
    let lattice = [[4.0, 0.0, 0.0], [0.0, 4.0, 0.0], [0.0, 0.0, 4.0]];
    let positions = [[0.0, 0.0, 0.0], [0.5, 0.5, 0.5]];
    let types = [1, 1];
    Cell::new(&lattice, &positions, &types).unwrap()
}

#[test]
fn new_keeps_what_it_is_given() {
    let cell = bcc();
    assert_eq!(cell.lattice, [[4.0, 0.0, 0.0], [0.0, 4.0, 0.0], [0.0, 0.0, 4.0]]);
    assert_eq!(cell.positions, vec![[0.0, 0.0, 0.0], [0.5, 0.5, 0.5]]);
    assert_eq!(cell.types, vec![1, 1]);
    assert!(cell.is_well_formed());
}

#[test]
fn new_rejects_mismatched_lengths() {
    let lattice = [[4.0, 0.0, 0.0], [0.0, 4.0, 0.0], [0.0, 0.0, 4.0]];
    let positions = [[0.0, 0.0, 0.0], [0.5, 0.5, 0.5]];
    let more = Cell::new(&lattice, &positions, &[1, 1, 1]);
    assert_eq!(more.err(), Some(SpglibError::ArraySizeShortage));
    let fewer = Cell::new(&lattice, &positions, &[1]);
    assert_eq!(fewer.err(), Some(SpglibError::ArraySizeShortage));
    let none = Cell::new(&lattice, &positions, &[]);
    assert_eq!(none.err(), Some(SpglibError::ArraySizeShortage));
}

#[test]
fn new_rejects_a_structure_without_atoms() {
    let lattice = [[4.0, 0.0, 0.0], [0.0, 4.0, 0.0], [0.0, 0.0, 4.0]];
    let empty = Cell::new(&lattice, &[], &[]);
    assert_eq!(empty.err(), Some(SpglibError::ArraySizeShortage));
}

#[test]
fn buffers_hold_the_structure() {
    let cell = bcc();
    let handed = cell.buffers().unwrap();
    assert_eq!(handed.lattice, cell.lattice);
    assert_eq!(handed.positions, cell.positions);
    assert_eq!(handed.types, cell.types);
    assert_eq!(handed.n_atoms, 2);
}

#[test]
fn no_request_for_an_ill_formed_structure() {
    let mut cell = bcc();
    cell.types.push(2);
    assert!(!cell.is_well_formed());
    assert_eq!(cell.buffers().err(), Some(SpglibError::ArraySizeShortage));
    assert_eq!(cell.standardize_call(true, false).err(), Some(SpglibError::ArraySizeShortage));
    cell.types.clear();
    cell.positions.clear();
    assert!(!cell.is_well_formed());
    assert_eq!(cell.buffers().err(), Some(SpglibError::ArraySizeShortage));
}

#[test]
fn standardize_call_encodes_the_flags() {
    let cell = bcc();
    let call = cell.standardize_call(true, false).unwrap();
    assert_eq!((call.to_primitive, call.no_idealize), (1, 0));
    assert_eq!(call.cell.n_atoms, 2);
    assert_eq!(call.cell.positions, cell.positions);
    assert_eq!(call.cell.types, cell.types);
    assert_eq!(call.cell.lattice, cell.lattice);
    let call = cell.standardize_call(false, true).unwrap();
    assert_eq!((call.to_primitive, call.no_idealize), (0, 1));
    let call = cell.standardize_call(false, false).unwrap();
    assert_eq!((call.to_primitive, call.no_idealize), (0, 0));
    let call = cell.standardize_call(true, true).unwrap();
    assert_eq!((call.to_primitive, call.no_idealize), (1, 1));
}

#[test]
fn standardize_to_primitive_replaces_the_cell() {
    let mut cell = bcc();
    let mut written = cell.standardize_call(true, false).unwrap().cell;
    written.lattice = [[-2.0, 2.0, 2.0], [2.0, -2.0, 2.0], [2.0, 2.0, -2.0]];
    written.n_atoms = 1;
    assert_eq!(cell.standardize(written), Ok(()));
    assert_eq!(cell.lattice, [[-2.0, 2.0, 2.0], [2.0, -2.0, 2.0], [2.0, 2.0, -2.0]]);
    assert_eq!(cell.positions, vec![[0.0, 0.0, 0.0]]);
    assert_eq!(cell.types, vec![1]);
    assert!(cell.is_well_formed());
}

#[test]
fn standardize_failure_leaves_the_cell() {
    let mut cell = bcc();
    let mut written = cell.buffers().unwrap();
    written.lattice = [[9.0, 9.0, 9.0], [9.0, 9.0, 9.0], [9.0, 9.0, 9.0]];
    written.n_atoms = 0;
    assert_eq!(cell.standardize(written), Err(SpglibError::CellStandardizationFailed));
    assert_eq!(cell.lattice, [[4.0, 0.0, 0.0], [0.0, 4.0, 0.0], [0.0, 0.0, 4.0]]);
    assert_eq!(cell.positions.len(), 2);
    assert_eq!(cell.types, vec![1, 1]);
}

#[test]
fn standardize_refuses_a_count_beyond_the_buffers() {
    let mut cell = bcc();
    let mut written = cell.buffers().unwrap();
    written.n_atoms = 3;
    assert_eq!(cell.standardize(written), Err(SpglibError::ArraySizeShortage));
    let mut written = cell.buffers().unwrap();
    written.n_atoms = -1;
    assert_eq!(cell.standardize(written), Err(SpglibError::ArraySizeShortage));
    let written = CellBuffers {
        lattice: cell.lattice,
        positions: cell.positions.clone(),
        types: vec![1],
        n_atoms: 2,
    };
    assert_eq!(cell.standardize(written), Err(SpglibError::ArraySizeShortage));
    assert_eq!(cell.positions.len(), 2);
    assert_eq!(cell.types, vec![1, 1]);
}

#[test]
fn unchanged_buffers_are_a_fixed_point() {
    let mut cell = bcc();
    let mut written = cell.standardize_call(true, false).unwrap().cell;
    written.lattice = [[-2.0, 2.0, 2.0], [2.0, -2.0, 2.0], [2.0, 2.0, -2.0]];
    written.n_atoms = 1;
    cell.standardize(written).unwrap();
    let once = cell.clone();
    let again = cell.standardize_call(true, false).unwrap().cell;
    assert_eq!(cell.standardize(again), Ok(()));
    assert_eq!(cell.lattice, once.lattice);
    assert_eq!(cell.positions, once.positions);
    assert_eq!(cell.types, once.types);
}

#[test]
fn delaunay_reduce_replaces_the_lattice_only() {
    let mut cell = bcc();
    let reduced = [[0.0, 4.0, 0.0], [0.0, 0.0, 4.0], [4.0, 0.0, 0.0]];
    assert_eq!(cell.delaunay_reduce(1, reduced), Ok(()));
    assert_eq!(cell.lattice, reduced);
    assert_eq!(cell.positions, bcc().positions);
    assert_eq!(cell.types, vec![1, 1]);
    assert_eq!(cell.delaunay_reduce(-3, bcc().lattice), Ok(()));
    assert_eq!(cell.lattice, bcc().lattice);
}

#[test]
fn delaunay_failure_is_reported() {
    let mut cell = bcc();
    let reduced = [[0.0, 4.0, 0.0], [0.0, 0.0, 4.0], [4.0, 0.0, 0.0]];
    assert_eq!(cell.delaunay_reduce(0, reduced), Err(SpglibError::DelaunayFailed));
    assert_eq!(cell.lattice, bcc().lattice);
}

#[test]
fn niggli_reduce_replaces_the_lattice_only() {
    let mut cell = bcc();
    let reduced = [[0.0, 0.0, 4.0], [4.0, 0.0, 0.0], [0.0, 4.0, 0.0]];
    assert_eq!(cell.niggli_reduce(1, reduced), Ok(()));
    assert_eq!(cell.lattice, reduced);
    assert_eq!(cell.positions, bcc().positions);
    assert_eq!(cell.types, vec![1, 1]);
}

#[test]
fn niggli_failure_is_reported() {
    let mut cell = bcc();
    let reduced = [[0.0, 0.0, 4.0], [4.0, 0.0, 0.0], [0.0, 4.0, 0.0]];
    assert_eq!(cell.niggli_reduce(0, reduced), Err(SpglibError::NiggliFailed));
    assert_eq!(cell.lattice, bcc().lattice);
}

#[test]
fn symmetry_call_counts_the_operations() {
    let identity = [[1, 0, 0], [0, 1, 0], [0, 0, 1]];
    let inversion = [[-1, 0, 0], [0, -1, 0], [0, 0, -1]];
    let zero = [0.0, 0.0, 0.0];
    let call = symmetry_call(&[identity, inversion], &[zero, zero]).unwrap();
    assert_eq!(call.n_operations, 2);
    assert_eq!(call.rotations, vec![identity, inversion]);
    assert_eq!(call.translations, vec![zero, zero]);
    assert_eq!(symmetry_call::<f64>(&[], &[]).unwrap().n_operations, 0);
}

#[test]
fn symmetry_call_rejects_mismatched_operations() {
    let identity = [[1, 0, 0], [0, 1, 0], [0, 0, 1]];
    let zero = [0.0, 0.0, 0.0];
    let call = symmetry_call(&[identity, identity], &[zero]);
    assert_eq!(call.err(), Some(SpglibError::ArraySizeShortage));
    let call = symmetry_call(&[], &[zero]);
    assert_eq!(call.err(), Some(SpglibError::ArraySizeShortage));
}

#[test]
fn hall_number_is_read_from_the_search() {
    assert_eq!(hall_number_from_symmetry(529), Ok(529));
    assert_eq!(hall_number_from_symmetry(1), Ok(1));
    assert_eq!(hall_number_from_symmetry(0), Err(SpglibError::SpacegroupSearchFailed));
}
