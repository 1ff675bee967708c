use circular_pool::{Circular, Position};

#[test]
fn one_position_before() {
    let mut v = Circular::<Position, i32>::new();
    let mut input = (0..10).collect::<Vec<i32>>();
    v.append(&mut input);
    v.set_position(Some(Position(3))).unwrap();
    v.remove(Position(5)).unwrap();
    assert_eq!(v.inactive_iter().map(|n| *n).collect::<Vec<i32>>(), vec![0, 1, 2, 3, 4, 6, 7, 8, 9]);
    assert_eq!(v.get_position(), Some(Position(3)));
}

#[test]
fn one_position_middle() {
    let mut v = Circular::<Position, i32>::new();
    let mut input = (0..10).collect::<Vec<i32>>();
    v.append(&mut input);
    v.set_position(Some(Position(5))).unwrap();
    v.remove(Position(5)).unwrap();
    assert_eq!(v.inactive_iter().map(|n| *n).collect::<Vec<i32>>(), vec![0, 1, 2, 3, 4, 6, 7, 8, 9]);
    assert_eq!(v.get_position(), Some(Position(5)));
}

#[test]
fn one_position_after() {
    let mut v = Circular::<Position, i32>::new();
    let mut input = (0..10).collect::<Vec<i32>>();
    v.append(&mut input);
    v.set_position(Some(Position(7))).unwrap();
    v.remove(Position(5)).unwrap();
    assert_eq!(v.inactive_iter().map(|n| *n).collect::<Vec<i32>>(), vec![0, 1, 2, 3, 4, 6, 7, 8, 9]);
    assert_eq!(v.get_position(), Some(Position(6)));
}
