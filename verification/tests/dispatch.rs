use op_bus::dispatch::complete_async;
use op_bus::dispatch::decode_minimal;
use op_bus::dispatch::dispatch;
use op_bus::dispatch::encode_minimal;
use op_bus::dispatch::pad_response;
use op_bus::dispatch::Dispatched;
use op_bus::dispatch::MinimalRecord;
use op_bus::dispatch::Op;
use op_bus::dispatch::OpRegistry;
use op_bus::shared_queue::SharedQueue;
use op_bus::shared_queue::MAX_RECORDS;
use op_bus::shared_queue::RECOMMENDED_SIZE;

#[test]
fn sync_result_pushes_exactly_one_reply_under_same_op_id() {
    let mut q = SharedQueue::new(RECOMMENDED_SIZE);

    let r = dispatch(&mut q, 7, Op::Sync(vec![1, 2, 3, 4]));
    assert_eq!(r, Dispatched::Replied);
    assert_eq!(q.size(), 1);

    let (op_id, reply) = q.shift().unwrap();
    assert_eq!(op_id, 7);
    assert_eq!(reply, vec![1, 2, 3, 4]);
    assert!(q.shift().is_none());
}

#[test]
fn sync_reply_is_padded_with_spaces() {
    let mut q = SharedQueue::new(RECOMMENDED_SIZE);

    let r = dispatch(&mut q, 3, Op::Sync(vec![b'{', b'}']));
    assert_eq!(r, Dispatched::Replied);

    let (op_id, reply) = q.shift().unwrap();
    assert_eq!(op_id, 3);
    assert_eq!(reply, vec![b'{', b'}', b' ', b' ']);
}

#[test]
fn async_result_parks_without_touching_the_queue() {
    let mut q = SharedQueue::new(RECOMMENDED_SIZE);

    let r = dispatch(&mut q, 9, Op::Async);
    assert_eq!(r, Dispatched::Parked);
    assert_eq!(q.size(), 0);
}

#[test]
fn out_of_order_completions_each_push_one_reply() {
    let mut q = SharedQueue::new(RECOMMENDED_SIZE);

    // Two async ops issued: op 10 first, op 11 second.
    assert_eq!(dispatch(&mut q, 10, Op::Async), Dispatched::Parked);
    assert_eq!(dispatch(&mut q, 11, Op::Async), Dispatched::Parked);
    assert_eq!(q.size(), 0);

    // The later op finishes first; each completion pushes exactly one
    // reply under its own op id.
    assert!(complete_async(&mut q, 11, vec![11, 0, 0, 0]));
    assert!(complete_async(&mut q, 10, vec![10, 0, 0, 0]));
    assert_eq!(q.size(), 2);

    let (op_id, reply) = q.shift().unwrap();
    assert_eq!(op_id, 11);
    assert_eq!(reply, vec![11, 0, 0, 0]);

    let (op_id, reply) = q.shift().unwrap();
    assert_eq!(op_id, 10);
    assert_eq!(reply, vec![10, 0, 0, 0]);
}

#[test]
fn overflow_reply_leaves_queue_intact_for_retry() {
    let mut q = SharedQueue::new(RECOMMENDED_SIZE);
    for _ in 0..MAX_RECORDS {
        assert!(q.push(1, &[0, 0, 0, 0]));
    }

    let r = dispatch(&mut q, 2, Op::Sync(vec![1, 2, 3, 4]));
    assert_eq!(r, Dispatched::Overflow);
    assert_eq!(q.size(), MAX_RECORDS);
    assert!(!complete_async(&mut q, 2, vec![1, 2, 3, 4]));
}

#[test]
fn pad_response_rounds_up_to_four() {
    let mut v = vec![1u8];
    pad_response(&mut v);
    assert_eq!(v, vec![1, b' ', b' ', b' ']);

    let mut v = vec![1u8, 2, 3, 4];
    pad_response(&mut v);
    assert_eq!(v, vec![1, 2, 3, 4]);

    let mut v: Vec<u8> = Vec::new();
    pad_response(&mut v);
    assert!(v.is_empty());
}

#[test]
fn registry_hands_out_dense_ids_from_one() {
    let mut reg = OpRegistry::new();
    let read_id = reg.register("read".to_string());
    let write_id = reg.register("write".to_string());
    assert_eq!(read_id, 1);
    assert_eq!(write_id, 2);
    assert_eq!(reg.len(), 2);

    assert_eq!(reg.name_of(1).unwrap(), "read");
    assert_eq!(reg.name_of(2).unwrap(), "write");
    assert!(reg.name_of(0).is_none());
    assert!(reg.name_of(3).is_none());
}

#[test]
fn minimal_codec_round_trips() {
    let rec = MinimalRecord { promise_id: 5, arg: -1, result: 258 };
    let bytes = encode_minimal(&rec);
    assert_eq!(
        bytes,
        vec![5, 0, 0, 0, 255, 255, 255, 255, 2, 1, 0, 0]
    );
    assert_eq!(decode_minimal(&bytes), Some(rec));

    let extremes = MinimalRecord { promise_id: i32::MIN, arg: i32::MAX, result: 0 };
    assert_eq!(decode_minimal(&encode_minimal(&extremes)), Some(extremes));

    assert_eq!(decode_minimal(&[0, 0, 0, 0]), None);
    assert_eq!(decode_minimal(&[]), None);
}
