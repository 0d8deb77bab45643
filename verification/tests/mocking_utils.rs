use mocktopus::mocking_utils::{OnceMutCell, OnceMutCellBorrowedError};

#[test]
fn borrow_reset_borrow_observes_mutation() {
    let mut cell = OnceMutCell::new(123_i32);

    let v1: &mut i32 = cell.borrow();
    *v1 = 456;

    cell.reset();

    let v2 = cell.borrow();
    assert_eq!(*v2, 456);
}

#[test]
fn second_try_borrow_without_reset_fails() {
    let mut cell = OnceMutCell::new(5_u32);

    assert!(cell.try_borrow().is_ok());
    assert_eq!(Err(OnceMutCellBorrowedError), cell.try_borrow().map(|v| *v));

    cell.reset();
    assert!(cell.try_borrow().is_ok());
}

#[test]
fn try_borrow_after_reset_observes_mutation() {
    let mut cell = OnceMutCell::new(String::from("before"));

    match cell.try_borrow() {
        Ok(value) => *value = String::from("after"),
        Err(_) => panic!("a fresh cell must grant its first borrow"),
    }

    cell.reset();

    match cell.try_borrow() {
        Ok(value) => assert_eq!("after", value),
        Err(_) => panic!("a reset cell must grant a borrow"),
    }
}

#[test]
fn get_mut_works_regardless_of_the_flag() {
    let mut cell = OnceMutCell::new(1_u8);
    let _ = cell.borrow();

    *cell.get_mut() = 9;
    assert_eq!(Err(OnceMutCellBorrowedError), cell.try_borrow().map(|v| *v));

    cell.reset();
    assert_eq!(9, *cell.borrow());
}

#[test]
fn into_inner_returns_the_wrapped_value() {
    let mut cell = OnceMutCell::new(vec![1, 2, 3]);
    cell.borrow().push(4);

    assert_eq!(vec![1, 2, 3, 4], cell.into_inner());
}

#[test]
fn with_releases_the_cell_after_each_cycle() {
    let mut cell = OnceMutCell::new(10_u64);

    let doubled = cell.with(|v| (v * 2, v));
    assert_eq!(10, doubled);

    let seen = cell.with(|v| (v, v));
    assert_eq!(20, seen);

    assert!(cell.try_borrow().is_ok());
}

#[test]
fn try_with_fails_on_a_borrowed_cell() {
    let mut cell = OnceMutCell::new(7_i64);
    let _ = cell.borrow();

    assert_eq!(Err(OnceMutCellBorrowedError), cell.try_with(|v| (v, v + 1)));

    cell.reset();
    assert_eq!(Ok(8), cell.try_with(|v| (v, v + 1)));
}

#[test]
fn borrowed_error_description() {
    let error = OnceMutCellBorrowedError;
    assert_eq!("`OnceMutCell` already borrowed", error.description());
}

#[test]
fn clone_yields_a_free_cell_with_the_same_value() {
    let mut cell = OnceMutCell::new(String::from("payload"));
    let _ = cell.borrow();

    let mut copy = cell.clone();
    assert_eq!("payload", *copy.borrow());
}

#[test]
fn default_cell_wraps_the_default_value() {
    let mut cell: OnceMutCell<u32> = OnceMutCell::default();
    assert_eq!(0, *cell.borrow());
}

#[test]
fn from_wraps_the_value_like_new() {
    let mut cell = OnceMutCell::from(41_u32);
    assert_eq!(41, *cell.borrow());
}
