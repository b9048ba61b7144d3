use op_bus::shared_queue::SharedQueue;
use op_bus::shared_queue::HEAD_INIT;
use op_bus::shared_queue::MAX_RECORDS;
use op_bus::shared_queue::RECOMMENDED_SIZE;

#[test]
fn basic() {
    let mut q = SharedQueue::new(RECOMMENDED_SIZE);

    let h = q.head();

    assert!(h > 0);

    let r = vec![1u8, 2, 3, 4].into_boxed_slice();

    let len = r.len() + h;

    assert!(q.push(0, &r));

    assert_eq!(q.head(), len);

    let r = vec![5, 6, 7, 8].into_boxed_slice();

    assert!(q.push(0, &r));

    let r = vec![9, 10, 11, 12].into_boxed_slice();

    assert!(q.push(0, &r));

    assert_eq!(q.num_records(), 3);

    assert_eq!(q.size(), 3);

    let (_op_id, r) = q.shift().unwrap();

    assert_eq!(r, vec![1, 2, 3, 4]);

    assert_eq!(q.num_records(), 3);

    assert_eq!(q.size(), 2);

    let (_op_id, r) = q.shift().unwrap();

    assert_eq!(r, vec![5, 6, 7, 8]);

    assert_eq!(q.num_records(), 3);

    assert_eq!(q.size(), 1);

    let (_op_id, r) = q.shift().unwrap();

    assert_eq!(r, vec![9, 10, 11, 12]);

    assert_eq!(q.num_records(), 0);

    assert_eq!(q.size(), 0);

    assert!(q.shift().is_none());

    assert!(q.shift().is_none());

    assert_eq!(q.num_records(), 0);

    assert_eq!(q.size(), 0);
}

fn alloc_buf(byte_length: usize) -> Vec<u8> {
    let mut v = Vec::new();

    v.resize(byte_length, 0);

    v
}

#[test]
fn overflow() {
    let mut q = SharedQueue::new(RECOMMENDED_SIZE);

    assert!(q.push(0, &alloc_buf(RECOMMENDED_SIZE - 4)));

    assert_eq!(q.size(), 1);

    assert!(!q.push(0, &alloc_buf(8)));

    assert_eq!(q.size(), 1);

    assert!(q.push(0, &alloc_buf(4)));

    assert_eq!(q.size(), 2);

    let (_op_id, buf) = q.shift().unwrap();

    assert_eq!(buf.len(), RECOMMENDED_SIZE - 4);

    assert_eq!(q.size(), 1);

    assert!(!q.push(0, &alloc_buf(4)));

    let (_op_id, buf) = q.shift().unwrap();

    assert_eq!(buf.len(), 4);

    assert_eq!(q.size(), 0);
}

#[test]
fn full_records() {
    let mut q = SharedQueue::new(RECOMMENDED_SIZE);

    for _ in 0..MAX_RECORDS {
        assert!(q.push(0, &alloc_buf(4)))
    }

    assert_eq!(q.push(0, &alloc_buf(4)), false);
    // Even if we shift one off, we still cannot push a new record.
    let _ignored = q.shift().unwrap();

    assert_eq!(q.push(0, &alloc_buf(4)), false);
}

#[test]
fn three_records_fifo_with_op_id() {
    let mut q = SharedQueue::new(RECOMMENDED_SIZE);

    assert!(q.push(7, &[1, 2, 3, 4]));
    assert!(q.push(7, &[5, 6, 7, 8]));
    assert!(q.push(7, &[9, 10, 11, 12]));

    assert_eq!(q.size(), 3);
    assert_eq!(q.num_records(), 3);

    let (op_id, r) = q.shift().unwrap();
    assert_eq!(op_id, 7);
    assert_eq!(r, vec![1, 2, 3, 4]);

    let (op_id, r) = q.shift().unwrap();
    assert_eq!(op_id, 7);
    assert_eq!(r, vec![5, 6, 7, 8]);

    let (op_id, r) = q.shift().unwrap();
    assert_eq!(op_id, 7);
    assert_eq!(r, vec![9, 10, 11, 12]);

    assert_eq!(q.size(), 0);
    assert_eq!(q.head(), HEAD_INIT);
}

#[test]
fn mixed_op_ids_keep_their_records() {
    let mut q = SharedQueue::new(RECOMMENDED_SIZE);

    assert!(q.push(10, &[1, 1, 1, 1]));
    assert!(q.push(20, &[2, 2, 2, 2, 2, 2, 2, 2]));

    let (op_id, r) = q.shift().unwrap();
    assert_eq!(op_id, 10);
    assert_eq!(r, vec![1, 1, 1, 1]);

    let (op_id, r) = q.shift().unwrap();
    assert_eq!(op_id, 20);
    assert_eq!(r, vec![2, 2, 2, 2, 2, 2, 2, 2]);
}

#[test]
fn drain_resets_counters_and_head() {
    let mut q = SharedQueue::new(RECOMMENDED_SIZE);

    assert!(q.push(3, &[0, 0, 0, 0]));
    assert!(q.head() > HEAD_INIT);
    assert_eq!(q.num_shifted_off(), 0);

    let _ = q.shift().unwrap();

    assert_eq!(q.head(), HEAD_INIT);
    assert_eq!(q.num_records(), 0);
    assert_eq!(q.num_shifted_off(), 0);
}

#[test]
fn get_meta_and_offset_follow_slots() {
    let mut q = SharedQueue::new(RECOMMENDED_SIZE);

    assert!(q.push(5, &[1, 2, 3, 4]));
    assert!(q.push(6, &[9, 9, 9, 9, 9, 9, 9, 9]));

    assert_eq!(q.get_offset(0), Some(HEAD_INIT));
    assert_eq!(q.get_meta(0), Some((5, HEAD_INIT + 4)));
    assert_eq!(q.get_offset(1), Some(HEAD_INIT + 4));
    assert_eq!(q.get_meta(1), Some((6, HEAD_INIT + 12)));
    assert_eq!(q.get_meta(2), None);
    assert_eq!(q.get_offset(2), None);
}

#[test]
fn buffer_view_spans_header_and_body() {
    let q = SharedQueue::new(RECOMMENDED_SIZE);
    assert_eq!(q.as_buffer_view().len(), HEAD_INIT + RECOMMENDED_SIZE);
}
