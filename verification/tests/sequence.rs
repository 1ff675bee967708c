use circular_pool::{IndexError, Position, PositionTrackedSequence};

fn digits() -> PositionTrackedSequence<i32> {
    let mut sequence = PositionTrackedSequence::new();
    let mut input = (0..10).collect::<Vec<i32>>();
    sequence.append(&mut input);
    sequence
}

fn items(sequence: &PositionTrackedSequence<i32>) -> Vec<i32> {
    sequence.iter().copied().collect()
}

#[test]
fn sequence_starts_empty() {
    let sequence = PositionTrackedSequence::<i32>::new();
    assert!(sequence.is_empty());
    assert_eq!(sequence.len(), 0);
    assert_eq!(items(&sequence), Vec::<i32>::new());
    assert_eq!(sequence.get(Position(0)), Err(IndexError { index: 0, len: 0 }));
}

#[test]
fn sequence_push_and_append_add_at_the_end() {
    let mut sequence = PositionTrackedSequence::new();
    sequence.push(7);
    sequence.push(8);
    let mut more = vec![9, 10, 11];
    sequence.append(&mut more);
    assert!(more.is_empty());
    assert!(!sequence.is_empty());
    assert_eq!(sequence.len(), 5);
    assert_eq!(items(&sequence), vec![7, 8, 9, 10, 11]);
}

#[test]
fn sequence_get_is_bounds_checked() {
    let sequence = digits();
    assert_eq!(sequence.get(Position(0)), Ok(&0));
    assert_eq!(sequence.get(Position(9)), Ok(&9));
    assert_eq!(sequence.get(Position(10)), Err(IndexError { index: 10, len: 10 }));
    assert_eq!(sequence.get(Position(usize::MAX)), Err(IndexError { index: usize::MAX, len: 10 }));
}

#[test]
fn sequence_get_mut_writes_in_place() {
    let mut sequence = digits();
    *sequence.get_mut(Position(4)).unwrap() = 40;
    assert_eq!(items(&sequence), vec![0, 1, 2, 3, 40, 5, 6, 7, 8, 9]);
    assert_eq!(sequence.get_mut(Position(10)), Err(IndexError { index: 10, len: 10 }));
    assert_eq!(items(&sequence), vec![0, 1, 2, 3, 40, 5, 6, 7, 8, 9]);
}

#[test]
fn sequence_set_replaces_in_place() {
    let mut sequence = digits();
    assert_eq!(sequence.set(Position(9), 90), Ok(()));
    assert_eq!(items(&sequence), vec![0, 1, 2, 3, 4, 5, 6, 7, 8, 90]);
    assert_eq!(sequence.set(Position(10), 100), Err(IndexError { index: 10, len: 10 }));
    assert_eq!(items(&sequence), vec![0, 1, 2, 3, 4, 5, 6, 7, 8, 90]);
}

#[test]
fn sequence_remove_renumbers_observers() {
    let mut sequence = digits();
    let mut observers = vec![Position(3), Position(5), Position(7), Position(9), Position(0)];
    assert_eq!(sequence.remove(Position(5), &mut observers), Ok(5));
    assert_eq!(items(&sequence), vec![0, 1, 2, 3, 4, 6, 7, 8, 9]);
    assert_eq!(observers, vec![Position(3), Position(5), Position(6), Position(8), Position(0)]);
    // The observer that stayed at 5 is stale: it names the item that slid in.
    assert_eq!(sequence.get(observers[1]), Ok(&6));
    // The others name what they named before.
    assert_eq!(sequence.get(observers[0]), Ok(&3));
    assert_eq!(sequence.get(observers[2]), Ok(&7));
    assert_eq!(sequence.get(observers[3]), Ok(&9));
    assert_eq!(sequence.get(observers[4]), Ok(&0));
}

#[test]
fn sequence_remove_of_first_and_last() {
    let mut sequence = digits();
    let mut observers = vec![Position(0), Position(1), Position(9)];
    assert_eq!(sequence.remove(Position(0), &mut observers), Ok(0));
    assert_eq!(observers, vec![Position(0), Position(0), Position(8)]);
    assert_eq!(sequence.remove(Position(8), &mut observers), Ok(9));
    assert_eq!(observers, vec![Position(0), Position(0), Position(8)]);
    assert_eq!(items(&sequence), vec![1, 2, 3, 4, 5, 6, 7, 8]);
    // A stale observer at the removed last position is out of range.
    assert_eq!(sequence.get(observers[2]), Err(IndexError { index: 8, len: 8 }));
}

#[test]
fn sequence_remove_out_of_range_changes_nothing() {
    let mut sequence = digits();
    let mut observers = vec![Position(3), Position(12)];
    assert_eq!(sequence.remove(Position(10), &mut observers), Err(IndexError { index: 10, len: 10 }));
    assert_eq!(items(&sequence), vec![0, 1, 2, 3, 4, 5, 6, 7, 8, 9]);
    assert_eq!(observers, vec![Position(3), Position(12)]);
    let mut empty = PositionTrackedSequence::<i32>::new();
    assert_eq!(empty.remove(Position(0), &mut observers), Err(IndexError { index: 0, len: 0 }));
    assert_eq!(observers, vec![Position(3), Position(12)]);
}

#[test]
fn sequence_clear_empties_items_and_observers() {
    let mut sequence = digits();
    let mut observers = vec![Position(3), Position(5)];
    sequence.clear(&mut observers);
    assert!(sequence.is_empty());
    assert_eq!(sequence.len(), 0);
    assert!(observers.is_empty());
    sequence.push(1);
    assert_eq!(items(&sequence), vec![1]);
}

#[test]
fn sequence_iter_can_be_taken_again() {
    let sequence = digits();
    let first: Vec<i32> = sequence.iter().copied().collect();
    let second: Vec<i32> = sequence.iter().copied().collect();
    assert_eq!(first, (0..10).collect::<Vec<i32>>());
    assert_eq!(first, second);
    assert_eq!(sequence.iter().len(), 10);
}

#[test]
fn sequence_iter_mut_writes_every_item() {
    let mut sequence = digits();
    for item in sequence.iter_mut() {
        *item *= 2;
    }
    assert_eq!(sequence.len(), 10);
    assert_eq!(items(&sequence), vec![0, 2, 4, 6, 8, 10, 12, 14, 16, 18]);
}

#[test]
fn sequence_iter_mut_hands_out_every_item_in_order() {
    let mut sequence = digits();
    let seen: Vec<i32> = sequence.iter_mut().map(|item| *item).collect();
    assert_eq!(seen, vec![0, 1, 2, 3, 4, 5, 6, 7, 8, 9]);
    assert_eq!(sequence.iter_mut().count(), 10);
    let mut empty = PositionTrackedSequence::<i32>::new();
    assert!(empty.iter_mut().next().is_none());
}

#[test]
fn sequence_iter_mut_left_early_keeps_the_rest() {
    let mut sequence = digits();
    {
        let mut iter = sequence.iter_mut();
        *iter.next().unwrap() = 100;
        iter.next();
        *iter.next().unwrap() = 102;
    }
    assert_eq!(items(&sequence), vec![100, 1, 102, 3, 4, 5, 6, 7, 8, 9]);
    let mut iter = sequence.iter_mut();
    for _ in 0..10 {
        assert!(iter.next().is_some());
    }
    assert!(iter.next().is_none());
    assert!(iter.next().is_none());
}
