use gravity_sim::body::Point;
use gravity_sim::trail::{CapVecDeque, IndexOutOfRange};

fn p(n: u64) -> Point {
    Point::new(n, n + 1000)
}

fn contents(buffer: &CapVecDeque) -> Vec<Point> {
    (0..buffer.len()).map(|i| *buffer.index(i)).collect()
}

#[test]
fn new_buffer_is_empty_and_keeps_one() {
    let buffer = CapVecDeque::new();
    assert_eq!(buffer.len(), 0);
    assert_eq!(buffer.capacity(), 1);
}

#[test]
fn with_capacity_is_empty_and_remembers_capacity() {
    let buffer = CapVecDeque::with_capacity(7);
    assert_eq!(buffer.len(), 0);
    assert_eq!(buffer.capacity(), 7);
}

#[test]
fn pushes_below_capacity_are_all_kept_in_order() {
    let mut buffer = CapVecDeque::with_capacity(5);
    for n in 0..3 {
        buffer.push_back(p(n));
    }
    assert_eq!(buffer.len(), 3);
    assert_eq!(contents(&buffer), vec![p(0), p(1), p(2)]);
}

#[test]
fn overfull_buffer_holds_the_last_capacity_positions() {
    for capacity in 1usize..6 {
        for extra in 0usize..5 {
            let mut buffer = CapVecDeque::with_capacity(capacity);
            let total = capacity + extra;
            for n in 0..total {
                buffer.add_element(p(n as u64));
            }
            assert_eq!(buffer.len(), capacity);
            assert_eq!(buffer.capacity(), capacity);
            let expected: Vec<Point> = (extra..total).map(|n| p(n as u64)).collect();
            assert_eq!(contents(&buffer), expected);
        }
    }
}

#[test]
fn push_back_evicts_like_add_element() {
    let mut pushed = CapVecDeque::with_capacity(2);
    let mut added = CapVecDeque::with_capacity(2);
    for n in 0..5 {
        pushed.push_back(p(n));
        added.add_element(p(n));
    }
    assert_eq!(contents(&pushed), vec![p(3), p(4)]);
    assert_eq!(contents(&added), vec![p(3), p(4)]);
}

#[test]
fn buffer_of_capacity_zero_stays_empty() {
    let mut buffer = CapVecDeque::with_capacity(0);
    buffer.add_element(p(1));
    buffer.push_back(p(2));
    assert_eq!(buffer.len(), 0);
    assert_eq!(buffer.capacity(), 0);
    assert_eq!(buffer.get(0), Err(IndexOutOfRange { index: 0, len: 0 }));
}

#[test]
fn single_slot_buffer_keeps_the_newest() {
    let mut buffer = CapVecDeque::new();
    buffer.add_element(p(1));
    buffer.add_element(p(2));
    assert_eq!(contents(&buffer), vec![p(2)]);
}

#[test]
fn pop_front_takes_the_oldest() {
    let mut buffer = CapVecDeque::with_capacity(3);
    assert_eq!(buffer.pop_front(), None);
    buffer.push_back(p(1));
    buffer.push_back(p(2));
    assert_eq!(buffer.pop_front(), Some(p(1)));
    assert_eq!(contents(&buffer), vec![p(2)]);
    assert_eq!(buffer.capacity(), 3);
    assert_eq!(buffer.pop_front(), Some(p(2)));
    assert_eq!(buffer.pop_front(), None);
}

#[test]
fn get_reads_by_age_and_fails_past_the_end() {
    let mut buffer = CapVecDeque::with_capacity(3);
    buffer.push_back(p(10));
    buffer.push_back(p(11));
    assert_eq!(buffer.get(0), Ok(p(10)));
    assert_eq!(buffer.get(1), Ok(p(11)));
    assert_eq!(buffer.get(2), Err(IndexOutOfRange { index: 2, len: 2 }));
    assert_eq!(buffer.get(usize::MAX), Err(IndexOutOfRange { index: usize::MAX, len: 2 }));
}

#[test]
fn get_follows_eviction() {
    let mut buffer = CapVecDeque::with_capacity(2);
    for n in 0..4 {
        buffer.push_back(p(n));
    }
    assert_eq!(buffer.get(0), Ok(p(2)));
    assert_eq!(buffer.get(1), Ok(p(3)));
    assert_eq!(*buffer.index(0), p(2));
}

#[test]
fn clone_of_a_partly_filled_buffer_keeps_its_capacity() {
    let mut buffer = CapVecDeque::with_capacity(4);
    buffer.push_back(p(1));
    buffer.push_back(p(2));
    let mut copy = buffer.clone();
    assert_eq!(copy.capacity(), 4);
    assert_eq!(contents(&copy), vec![p(1), p(2)]);
    for n in 3..8 {
        copy.add_element(p(n));
    }
    assert_eq!(contents(&copy), vec![p(4), p(5), p(6), p(7)]);
    assert_eq!(contents(&buffer), vec![p(1), p(2)]);
}

#[test]
fn clone_of_an_empty_buffer_keeps_its_capacity() {
    let buffer = CapVecDeque::with_capacity(100000);
    let copy = buffer.clone();
    assert_eq!(copy.capacity(), 100000);
    assert_eq!(copy.len(), 0);
}

#[test]
fn huge_capacity_costs_nothing_until_used() {
    let mut buffer = CapVecDeque::with_capacity(usize::MAX);
    buffer.push_back(p(1));
    assert_eq!(buffer.len(), 1);
    assert_eq!(buffer.capacity(), usize::MAX);
}
