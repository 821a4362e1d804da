use bounded_ser::adapter::{Adapter, Protocol, Request};
use bounded_ser::deque::Deque;
use bounded_ser::heap::BinaryHeap;
use bounded_ser::history::HistoryBuffer;
use bounded_ser::index_map::IndexMap;
use bounded_ser::index_set::IndexSet;
use bounded_ser::linear_map::LinearMap;
use bounded_ser::source::{traverse, traverse_entries, MapSource, SequenceSource};
use bounded_ser::text::BoundedString;
use bounded_ser::vector::BoundedVec;

#[derive(Debug, Clone, PartialEq)]
struct Failure(u32);

/// A destination that records what it is asked and fails where it is told to.
struct Mock<T> {
    opened: Vec<(Protocol, usize)>,
    items: Vec<T>,
    attempts: usize,
    closed: usize,
    fail_on_open: bool,
    fail_on_write: Option<usize>,
    fail_on_close: bool,
}

impl<T> Mock<T> {
    fn new() -> Self {
        Mock {
            opened: Vec::new(),
            items: Vec::new(),
            attempts: 0,
            closed: 0,
            fail_on_open: false,
            fail_on_write: None,
            fail_on_close: false,
        }
    }

    fn failing_on_write(k: usize) -> Self {
        let mut m = Mock::new();
        m.fail_on_write = Some(k);
        m
    }

    fn open(&mut self, protocol: Protocol, hint: usize) -> Result<(), Failure> {
        self.opened.push((protocol, hint));
        if self.fail_on_open {
            Err(Failure(1000))
        } else {
            Ok(())
        }
    }

    fn write(&mut self, item: T) -> Result<(), Failure> {
        self.attempts += 1;
        if self.fail_on_write == Some(self.attempts) {
            return Err(Failure(self.attempts as u32));
        }
        self.items.push(item);
        Ok(())
    }

    fn close(&mut self) -> Result<(), Failure> {
        self.closed += 1;
        if self.fail_on_close {
            Err(Failure(2000))
        } else {
            Ok(())
        }
    }
}

fn emit_sequence<C>(source: &C, mock: &mut Mock<C::Item>) -> Result<(), Failure>
where
    C: SequenceSource,
    C::Item: Clone,
{
    let mut adapter = Adapter::for_sequence(source);
    let mut failure: Option<Failure> = None;
    loop {
        let answer = match adapter.pending() {
            Request::Open { protocol, hint } => mock.open(protocol, hint),
            Request::Write { index } => mock.write(source.element(index).clone()),
            Request::Close => mock.close(),
            Request::Finished => return Ok(()),
            Request::Stopped => return Err(failure.unwrap()),
        };
        if let Err(e) = adapter.advance(answer) {
            failure = Some(e);
        }
    }
}

fn emit_map<C>(source: &C, mock: &mut Mock<(C::Key, C::Value)>) -> Result<(), Failure>
where
    C: MapSource,
    C::Key: Clone,
    C::Value: Clone,
{
    let mut adapter = Adapter::for_map(source);
    let mut failure: Option<Failure> = None;
    loop {
        let answer = match adapter.pending() {
            Request::Open { protocol, hint } => mock.open(protocol, hint),
            Request::Write { index } => {
                mock.write((source.key(index).clone(), source.value(index).clone()))
            }
            Request::Close => mock.close(),
            Request::Finished => return Ok(()),
            Request::Stopped => return Err(failure.unwrap()),
        };
        if let Err(e) = adapter.advance(answer) {
            failure = Some(e);
        }
    }
}

fn vector_of(items: &[i32], capacity: usize) -> BoundedVec<i32> {
    let mut v = BoundedVec::new(capacity);
    for x in items {
        assert_eq!(v.push(*x), Ok(()));
    }
    v
}

#[test]
fn vector_is_emitted_in_index_order() {
    let v = vector_of(&[10, 20, 30], 8);
    let mut mock = Mock::new();
    assert_eq!(emit_sequence(&v, &mut mock), Ok(()));
    assert_eq!(mock.opened, vec![(Protocol::Sequence, 3)]);
    assert_eq!(mock.items, vec![10, 20, 30]);
    assert_eq!(mock.attempts, 3);
    assert_eq!(mock.closed, 1);
}

#[test]
fn hint_is_the_number_of_elements_not_the_capacity() {
    let v = vector_of(&[1, 2], 16);
    assert_eq!(v.capacity(), 16);
    assert_eq!(v.length(), 2);
    let mut mock = Mock::new();
    assert_eq!(emit_sequence(&v, &mut mock), Ok(()));
    assert_eq!(mock.opened, vec![(Protocol::Sequence, 2)]);
    assert_eq!(mock.items.len(), 2);
}

#[test]
fn ring_buffer_of_three_after_four_writes() {
    let mut h = HistoryBuffer::new(3);
    h.write(1);
    h.write(2);
    h.write(3);
    h.write(4);
    assert_eq!(h.oldest_slot(), 1);
    let mut mock = Mock::new();
    assert_eq!(emit_sequence(&h, &mut mock), Ok(()));
    assert_eq!(mock.opened, vec![(Protocol::Sequence, 3)]);
    assert_eq!(mock.items, vec![2, 3, 4]);
    assert_eq!(mock.closed, 1);
}

#[test]
fn ring_buffer_partly_filled_is_emitted_as_written() {
    let mut h = HistoryBuffer::new(5);
    h.write(7);
    h.write(8);
    assert_eq!(h.length(), 2);
    let mut mock = Mock::new();
    assert_eq!(emit_sequence(&h, &mut mock), Ok(()));
    assert_eq!(mock.opened, vec![(Protocol::Sequence, 2)]);
    assert_eq!(mock.items, vec![7, 8]);
}

#[test]
fn ring_buffer_wraps_more_than_once() {
    let mut h = HistoryBuffer::new(3);
    for x in 1..=8 {
        h.write(x);
    }
    assert_eq!(h.oldest_slot(), 2);
    let mut mock = Mock::new();
    assert_eq!(emit_sequence(&h, &mut mock), Ok(()));
    assert_eq!(mock.items, vec![6, 7, 8]);
}

#[test]
fn ring_buffer_without_slots_keeps_nothing() {
    let mut h = HistoryBuffer::new(0);
    h.write(1);
    assert_eq!(h.length(), 0);
    let mut mock: Mock<i32> = Mock::new();
    assert_eq!(emit_sequence(&h, &mut mock), Ok(()));
    assert_eq!(mock.opened, vec![(Protocol::Sequence, 0)]);
    assert!(mock.items.is_empty());
}

#[test]
fn deque_is_emitted_front_to_back_across_the_wrap() {
    let mut d = Deque::new(3);
    assert_eq!(d.push_back(1), Ok(()));
    assert_eq!(d.push_back(2), Ok(()));
    assert_eq!(d.push_back(3), Ok(()));
    assert_eq!(d.pop_front(), Some(1));
    assert_eq!(d.push_back(4), Ok(()));
    assert_eq!(d.front_slot(), 1);
    let mut mock = Mock::new();
    assert_eq!(emit_sequence(&d, &mut mock), Ok(()));
    assert_eq!(mock.opened, vec![(Protocol::Sequence, 3)]);
    assert_eq!(mock.items, vec![2, 3, 4]);
    assert_eq!(mock.closed, 1);
}

#[test]
fn deque_hint_is_its_logical_length() {
    let mut d = Deque::new(8);
    assert_eq!(d.push_back(5), Ok(()));
    assert_eq!(d.push_back(6), Ok(()));
    assert_eq!(d.push_back(7), Ok(()));
    assert_eq!(d.pop_front(), Some(5));
    assert_eq!(d.capacity(), 8);
    assert_eq!(d.length(), 2);
    let mut mock = Mock::new();
    assert_eq!(emit_sequence(&d, &mut mock), Ok(()));
    assert_eq!(mock.opened, vec![(Protocol::Sequence, 2)]);
    assert_eq!(mock.items, vec![6, 7]);
}

#[test]
fn deque_full_hands_the_value_back() {
    let mut d = Deque::new(2);
    assert_eq!(d.push_back(1), Ok(()));
    assert_eq!(d.push_back(2), Ok(()));
    assert_eq!(d.push_back(3), Err(3));
    assert_eq!(d.length(), 2);
    assert_eq!(*d.element(0), 1);
    assert_eq!(*d.element(1), 2);
}

#[test]
fn deque_pop_on_empty_is_none() {
    let mut d: Deque<i32> = Deque::new(2);
    assert_eq!(d.pop_front(), None);
    assert_eq!(d.push_back(1), Ok(()));
    assert_eq!(d.pop_front(), Some(1));
    assert_eq!(d.pop_front(), None);
    assert_eq!(d.length(), 0);
}

#[test]
fn deque_without_slots_takes_nothing() {
    let mut d: Deque<i32> = Deque::new(0);
    assert_eq!(d.push_back(1), Err(1));
    assert_eq!(d.pop_front(), None);
    assert_eq!(d.length(), 0);
}

#[test]
fn priority_queue_emits_its_whole_content() {
    let heap = BinaryHeap::from_heap_array(vec![9, 5, 7, 1, 5], 8).unwrap();
    let mut mock = Mock::new();
    assert_eq!(emit_sequence(&heap, &mut mock), Ok(()));
    assert_eq!(mock.opened, vec![(Protocol::Sequence, 5)]);
    let mut got = mock.items.clone();
    got.sort();
    assert_eq!(got, vec![1, 5, 5, 7, 9]);
}

#[test]
fn linear_map_emits_its_whole_content() {
    let m = LinearMap::from_cells(vec![("b", 2), ("a", 1), ("c", 3)], 4).unwrap();
    let mut mock = Mock::new();
    assert_eq!(emit_map(&m, &mut mock), Ok(()));
    assert_eq!(mock.opened, vec![(Protocol::KeyValue, 3)]);
    let mut got = mock.items.clone();
    got.sort();
    assert_eq!(got, vec![("a", 1), ("b", 2), ("c", 3)]);
    assert_eq!(mock.closed, 1);
}

#[test]
fn index_set_is_emitted_in_insertion_order() {
    let s = IndexSet::from_insertion_order(vec!["pear", "apple", "fig"], 4).unwrap();
    let mut mock = Mock::new();
    assert_eq!(emit_sequence(&s, &mut mock), Ok(()));
    assert_eq!(mock.opened, vec![(Protocol::Sequence, 3)]);
    assert_eq!(mock.items, vec!["pear", "apple", "fig"]);
}

#[test]
fn index_map_is_emitted_in_insertion_order() {
    let m = IndexMap::from_insertion_order(vec![("z", 26), ("a", 1), ("m", 13)], 4).unwrap();
    let mut mock = Mock::new();
    assert_eq!(emit_map(&m, &mut mock), Ok(()));
    assert_eq!(mock.opened, vec![(Protocol::KeyValue, 3)]);
    assert_eq!(mock.items, vec![("z", 26), ("a", 1), ("m", 13)]);
    assert_eq!(mock.closed, 1);
}

#[test]
fn content_over_capacity_is_refused() {
    assert!(BoundedVec::from_items(vec![1, 2, 3], 2).is_none());
    assert!(BoundedVec::from_items(vec![1, 2, 3], 3).is_some());
    assert!(BinaryHeap::from_heap_array(vec![1, 2, 3], 2).is_none());
    assert!(IndexSet::from_insertion_order(vec![1, 2, 3], 2).is_none());
    assert!(IndexMap::from_insertion_order(vec![(1, 1), (2, 2)], 1).is_none());
    assert!(LinearMap::from_cells(vec![(1, 1), (2, 2)], 1).is_none());
    assert!(LinearMap::from_cells(vec![(1, 1), (2, 2)], 2).is_some());
}

#[test]
fn full_vector_hands_the_value_back() {
    let mut v = BoundedVec::new(1);
    assert_eq!(v.push(1), Ok(()));
    assert_eq!(v.push(2), Err(2));
    assert_eq!(v.length(), 1);
    assert_eq!(*v.element(0), 1);
}

fn assert_empty_sequence<C>(source: &C)
where
    C: SequenceSource<Item = i32>,
{
    assert_eq!(source.length(), 0);
    let mut mock = Mock::new();
    assert_eq!(emit_sequence(source, &mut mock), Ok(()));
    assert_eq!(mock.opened, vec![(Protocol::Sequence, 0)]);
    assert!(mock.items.is_empty());
    assert_eq!(mock.attempts, 0);
    assert_eq!(mock.closed, 1);
}

fn assert_empty_map<C>(source: &C)
where
    C: MapSource<Key = i32, Value = i32>,
{
    assert_eq!(source.length(), 0);
    let mut mock = Mock::new();
    assert_eq!(emit_map(source, &mut mock), Ok(()));
    assert_eq!(mock.opened, vec![(Protocol::KeyValue, 0)]);
    assert!(mock.items.is_empty());
    assert_eq!(mock.attempts, 0);
    assert_eq!(mock.closed, 1);
}

#[test]
fn empty_vector_is_an_empty_sequence() {
    assert_empty_sequence(&BoundedVec::new(4));
}

#[test]
fn empty_deque_is_an_empty_sequence() {
    assert_empty_sequence(&Deque::new(4));
}

#[test]
fn emptied_deque_is_an_empty_sequence() {
    let mut d = Deque::new(2);
    assert_eq!(d.push_back(1), Ok(()));
    assert_eq!(d.pop_front(), Some(1));
    assert_empty_sequence(&d);
}

#[test]
fn empty_priority_queue_is_an_empty_sequence() {
    assert_empty_sequence(&BinaryHeap::from_heap_array(Vec::new(), 4).unwrap());
}

#[test]
fn empty_index_set_is_an_empty_sequence() {
    assert_empty_sequence(&IndexSet::from_insertion_order(Vec::new(), 4).unwrap());
}

#[test]
fn empty_ring_buffer_is_an_empty_sequence() {
    assert_empty_sequence(&HistoryBuffer::new(4));
}

#[test]
fn empty_index_map_is_an_empty_map() {
    assert_empty_map(&IndexMap::from_insertion_order(Vec::new(), 4).unwrap());
}

#[test]
fn empty_linear_map_is_an_empty_map() {
    assert_empty_map(&LinearMap::from_cells(Vec::new(), 4).unwrap());
}

#[test]
fn text_with_a_wide_character_is_kept_exactly() {
    let t = BoundedString::new("héllo", 8).unwrap();
    assert_eq!(t.as_str(), "héllo");
    assert_eq!(t.as_str().len(), 6);
    assert_eq!(t.as_str().chars().count(), 5);
    assert_eq!(t.capacity(), 8);
}

#[test]
fn text_capacity_counts_bytes() {
    assert!(BoundedString::new("héllo", 5).is_none());
    assert!(BoundedString::new("héllo", 6).is_some());
    assert!(BoundedString::new("hello", 5).is_some());
}

#[test]
fn empty_text_is_the_empty_text() {
    let t = BoundedString::new("", 0).unwrap();
    assert_eq!(t.as_str(), "");
}

#[test]
fn failure_on_a_write_stops_the_run() {
    let v = vector_of(&[1, 2, 3, 4, 5], 8);
    let mut mock = Mock::failing_on_write(3);
    assert_eq!(emit_sequence(&v, &mut mock), Err(Failure(3)));
    assert_eq!(mock.opened, vec![(Protocol::Sequence, 5)]);
    assert_eq!(mock.attempts, 3);
    assert_eq!(mock.items, vec![1, 2]);
    assert_eq!(mock.closed, 0);
}

#[test]
fn failure_on_the_first_write_visits_one_element() {
    let v = vector_of(&[1, 2, 3], 8);
    let mut mock = Mock::failing_on_write(1);
    assert_eq!(emit_sequence(&v, &mut mock), Err(Failure(1)));
    assert_eq!(mock.attempts, 1);
    assert!(mock.items.is_empty());
    assert_eq!(mock.closed, 0);
}

#[test]
fn failure_on_the_last_write_leaves_the_context_open() {
    let v = vector_of(&[1, 2, 3], 8);
    let mut mock = Mock::failing_on_write(3);
    assert_eq!(emit_sequence(&v, &mut mock), Err(Failure(3)));
    assert_eq!(mock.attempts, 3);
    assert_eq!(mock.items, vec![1, 2]);
    assert_eq!(mock.closed, 0);
}

#[test]
fn failure_on_an_entry_stops_the_map_run() {
    let m = IndexMap::from_insertion_order(vec![("a", 1), ("b", 2), ("c", 3)], 4).unwrap();
    let mut mock = Mock::failing_on_write(2);
    assert_eq!(emit_map(&m, &mut mock), Err(Failure(2)));
    assert_eq!(mock.attempts, 2);
    assert_eq!(mock.items, vec![("a", 1)]);
    assert_eq!(mock.closed, 0);
}

#[test]
fn failure_on_open_writes_nothing() {
    let v = vector_of(&[1, 2, 3], 8);
    let mut mock = Mock::new();
    mock.fail_on_open = true;
    assert_eq!(emit_sequence(&v, &mut mock), Err(Failure(1000)));
    assert_eq!(mock.opened.len(), 1);
    assert_eq!(mock.attempts, 0);
    assert_eq!(mock.closed, 0);
}

#[test]
fn failure_on_close_is_handed_back() {
    let v = vector_of(&[1, 2, 3], 8);
    let mut mock = Mock::new();
    mock.fail_on_close = true;
    assert_eq!(emit_sequence(&v, &mut mock), Err(Failure(2000)));
    assert_eq!(mock.items, vec![1, 2, 3]);
    assert_eq!(mock.closed, 1);
}

#[test]
fn requests_of_a_run_over_two_elements() {
    let mut a = Adapter::start(Protocol::Sequence, 2);
    let mut seen = Vec::new();
    while !a.is_settled() {
        seen.push(a.pending());
        assert_eq!(a.advance::<Failure>(Ok(())), Ok(()));
    }
    assert_eq!(
        seen,
        vec![
            Request::Open { protocol: Protocol::Sequence, hint: 2 },
            Request::Write { index: 0 },
            Request::Write { index: 1 },
            Request::Close,
        ]
    );
    assert_eq!(a.pending(), Request::Finished);
    assert!(!a.is_stopped());
    assert_eq!(a.writes_accepted(), 2);
}

#[test]
fn requests_of_a_run_over_nothing() {
    let mut a = Adapter::start(Protocol::KeyValue, 0);
    assert_eq!(a.pending(), Request::Open { protocol: Protocol::KeyValue, hint: 0 });
    assert_eq!(a.advance::<Failure>(Ok(())), Ok(()));
    assert_eq!(a.pending(), Request::Close);
    assert_eq!(a.advance::<Failure>(Ok(())), Ok(()));
    assert_eq!(a.pending(), Request::Finished);
    assert!(a.is_settled());
}

#[test]
fn a_stopped_run_stays_stopped() {
    let mut a = Adapter::start(Protocol::Sequence, 3);
    assert_eq!(a.advance::<Failure>(Ok(())), Ok(()));
    assert_eq!(a.advance::<Failure>(Ok(())), Ok(()));
    assert_eq!(a.pending(), Request::Write { index: 1 });
    assert_eq!(a.advance(Err(Failure(42))), Err(Failure(42)));
    assert!(a.is_stopped());
    assert!(a.is_settled());
    assert_eq!(a.pending(), Request::Stopped);
    assert_eq!(a.writes_accepted(), 1);
    assert_eq!(a.advance::<Failure>(Ok(())), Ok(()));
    assert_eq!(a.pending(), Request::Stopped);
    assert_eq!(a.writes_accepted(), 1);
}

#[test]
fn a_finished_run_stays_finished() {
    let mut a = Adapter::start(Protocol::Sequence, 0);
    assert_eq!(a.advance::<Failure>(Ok(())), Ok(()));
    assert_eq!(a.advance::<Failure>(Ok(())), Ok(()));
    assert_eq!(a.pending(), Request::Finished);
    assert_eq!(a.advance(Err(Failure(7))), Err(Failure(7)));
    assert_eq!(a.pending(), Request::Finished);
    assert!(!a.is_stopped());
}

#[test]
fn traverse_hands_out_the_elements_in_order() {
    let mut d = Deque::new(3);
    assert_eq!(d.push_back(1), Ok(()));
    assert_eq!(d.push_back(2), Ok(()));
    assert_eq!(d.push_back(3), Ok(()));
    assert_eq!(d.pop_front(), Some(1));
    assert_eq!(d.pop_front(), Some(2));
    assert_eq!(d.push_back(4), Ok(()));
    assert_eq!(d.push_back(5), Ok(()));
    assert_eq!(traverse(&d), vec![&3, &4, &5]);
}

#[test]
fn traverse_entries_hands_out_keys_and_values() {
    let m = LinearMap::from_cells(vec![(1, "one"), (2, "two")], 2).unwrap();
    assert_eq!(traverse_entries(&m), vec![(&1, &"one"), (&2, &"two")]);
    assert_eq!(m.length(), 2);
    assert_eq!(*m.key(1), 2);
    assert_eq!(*m.value(1), "two");
}
