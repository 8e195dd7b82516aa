use consist_manager::error::ConsistError;
use consist_manager::order_list::{add, delete, edit, move_down, move_up, position_above, position_below};

#[test]
fn add_inserts_or_appends() {
    let mut v = vec![1, 2, 3];
    add(&mut v, 9, Some(1));
    assert_eq!(v, vec![1, 9, 2, 3]);
    add(&mut v, 8, Some(4));
    assert_eq!(v, vec![1, 9, 2, 3, 8]);
    add(&mut v, 7, Some(99));
    assert_eq!(v, vec![1, 9, 2, 3, 8, 7]);
    add(&mut v, 6, None);
    assert_eq!(v, vec![1, 9, 2, 3, 8, 7, 6]);
}

#[test]
fn delete_edit_and_moves_on_a_plain_list() {
    let mut v = vec!['a', 'b', 'c'];
    assert_eq!(delete(&mut v, 3), Err(ConsistError::OutOfRange));
    assert_eq!(delete(&mut v, 0), Ok('a'));
    assert_eq!(v, vec!['b', 'c']);
    assert_eq!(edit(&mut v, 1, 'z'), Ok(()));
    assert_eq!(v, vec!['b', 'z']);
    assert_eq!(edit(&mut v, 2, 'y'), Err(ConsistError::OutOfRange));
    assert_eq!(move_up(&mut v, 1), Ok(()));
    assert_eq!(v, vec!['z', 'b']);
    assert_eq!(move_down(&mut v, 1), Ok(()));
    assert_eq!(v, vec!['z', 'b']);
    assert_eq!(move_down(&mut v, 0), Ok(()));
    assert_eq!(v, vec!['b', 'z']);
    assert_eq!(move_up(&mut v, 2), Err(ConsistError::OutOfRange));
    let mut empty: Vec<u8> = Vec::new();
    assert_eq!(move_down(&mut empty, 0), Err(ConsistError::OutOfRange));
}

#[test]
fn context_menu_positions() {
    assert_eq!(position_above(0), Some(0));
    assert_eq!(position_above(1), Some(0));
    assert_eq!(position_above(5), Some(4));
    assert_eq!(position_below(0, 3), Some(1));
    assert_eq!(position_below(2, 3), None);
    assert_eq!(position_below(7, 3), None);
}
