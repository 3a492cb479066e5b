use kook_sdk::sequence::{ReorderBuffer, MAX_PENDING};

fn feed(inputs: &[i64]) -> Vec<i64> {
    let mut buffer: ReorderBuffer<i64> = ReorderBuffer::new();
    let mut out = Vec::new();
    for &sn in inputs {
        out.extend(buffer.observe(sn, sn).expect("within bound"));
    }
    out
}

#[test]
fn gap_closed_out_of_order_delivers_in_order() {
    assert_eq!(feed(&[1, 2, 4, 3]), vec![1, 2, 3, 4]);
}

#[test]
fn repeated_sequence_number_is_dropped() {
    assert_eq!(feed(&[1, 1, 2]), vec![1, 2]);
}

#[test]
fn any_arrival_order_delivers_sorted_without_repeats() {
    assert_eq!(feed(&[5, 3, 3, 1, 4, 2, 5, 6]), vec![1, 2, 3, 4, 5, 6]);
}

#[test]
fn missing_number_holds_back_the_rest() {
    let mut buffer: ReorderBuffer<i64> = ReorderBuffer::new();
    assert!(buffer.observe(2, 2).unwrap().is_empty());
    assert!(buffer.observe(3, 3).unwrap().is_empty());
    assert_eq!(buffer.cursor(), 0);
    assert_eq!(buffer.pending_len(), 2);
    assert_eq!(buffer.observe(1, 1).unwrap(), vec![1, 2, 3]);
    assert_eq!(buffer.cursor(), 3);
    assert_eq!(buffer.pending_len(), 0);
}

#[test]
fn observing_twice_changes_nothing_more() {
    let mut buffer: ReorderBuffer<i64> = ReorderBuffer::new();
    assert!(buffer.observe(3, 3).unwrap().is_empty());
    assert!(buffer.observe(3, 3).unwrap().is_empty());
    assert_eq!(buffer.pending_len(), 1);
    assert_eq!(buffer.observe(1, 1).unwrap(), vec![1]);
    assert!(buffer.observe(1, 1).unwrap().is_empty());
    assert_eq!(buffer.observe(2, 2).unwrap(), vec![2, 3]);
}

#[test]
fn zero_and_negative_numbers_are_duplicates() {
    assert_eq!(feed(&[0, -5, 1]), vec![1]);
}

#[test]
fn buffer_refuses_past_its_bound() {
    let mut buffer: ReorderBuffer<i64> = ReorderBuffer::new();
    for k in 0..MAX_PENDING as i64 {
        assert!(buffer.observe(k + 2, k + 2).unwrap().is_empty());
    }
    assert_eq!(buffer.pending_len(), MAX_PENDING);
    assert!(buffer.observe(MAX_PENDING as i64 + 10, 0).is_none());
    assert!(buffer.observe(2, 2).unwrap().is_empty());
    let run = buffer.observe(1, 1).unwrap();
    assert_eq!(run.len(), MAX_PENDING + 1);
    assert_eq!(buffer.cursor(), MAX_PENDING as i64 + 1);
}

#[test]
fn largest_sequence_number_is_delivered() {
    let mut buffer: ReorderBuffer<i64> = ReorderBuffer::new();
    assert!(buffer.observe(i64::MAX, 0).unwrap().is_empty());
    assert_eq!(buffer.cursor(), 0);
}
