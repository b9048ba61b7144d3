//! The op-dispatch layer: the sync/async result shape, the padding applied
//! to replies before they enter the queue, the push of replies under the
//! originating op id, the registry mapping op names to 32-bit op ids, and
//! the compact three-integer envelope used by the hot-path I/O ops.

use vstd::prelude::*;

use crate::shared_queue::lemma_le_decompose;
use crate::shared_queue::word_at;
use crate::shared_queue::SharedQueue;
use crate::shared_queue::MAX_RECORDS;

verus! {

/// A handler's result: reply bytes available at once, or a pending
/// computation that yields the reply bytes later on the event loop.
pub enum Op {
    Sync(Vec<u8>),
    Async,
}

/// How the dispatcher disposed of a handler result.
#[derive(Clone, Copy, Debug, PartialEq, Eq, Structural)]
pub enum Dispatched {
    /// A sync reply went into the queue under the request's op id.
    Replied,
    /// The queue refused the reply; the caller must retry after the guest
    /// drains, never drop it.
    Overflow,
    /// An async result was parked on the event loop; nothing was pushed.
    Parked,
}

/// The length a reply has after padding to a 4-byte boundary.
pub open spec fn padded_len(n: int) -> int {
    ((n + 3) / 4) * 4
}

/// A reply padded with trailing spaces to a 4-byte boundary.
pub open spec fn padded(s: Seq<u8>) -> Seq<u8> {
    s + Seq::new((padded_len(s.len() as int) - s.len()) as nat, |i: int| 32u8)
}

/// Padding rounds up to the next multiple of 4 and adds at most 3 bytes.
pub proof fn lemma_padded_len(n: int)
    requires
        n >= 0,
    ensures
        n <= padded_len(n) < n + 4,
        padded_len(n) % 4 == 0,
{
    assert(n <= ((n + 3) / 4) * 4 < n + 4 && (((n + 3) / 4) * 4) % 4 == 0) by (nonlinear_arith)
        requires
            n >= 0,
    ;
}

/// Pads a reply with spaces until its length is a multiple of 4, as the
/// record encoding demands.
pub fn pad_response(reply: &mut Vec<u8>)
    requires
        old(reply)@.len() + 3 <= usize::MAX,
    ensures
        final(reply)@ == padded(old(reply)@),
{
    proof {
        lemma_padded_len(old(reply)@.len() as int);
    }
    while reply.len() % 4 != 0
        invariant
            old(reply)@.len() <= reply@.len() <= padded_len(old(reply)@.len() as int),
            reply@.subrange(0, old(reply)@.len() as int) == old(reply)@,
            forall|i: int| old(reply)@.len() <= i < reply@.len() ==> reply@[i] == 32u8,
            padded_len(old(reply)@.len() as int) < old(reply)@.len() + 4,
            padded_len(old(reply)@.len() as int) % 4 == 0,
        decreases padded_len(old(reply)@.len() as int) - reply@.len(),
    {
        proof {
            assert(reply@.len() < padded_len(old(reply)@.len() as int)) by {
                assert(reply@.len() % 4 != 0);
                assert(padded_len(old(reply)@.len() as int) % 4 == 0);
            }
        }
        reply.push(32);
        proof {
            assert(reply@.subrange(0, old(reply)@.len() as int) =~= old(reply)@);
        }
    }
    proof {
        assert(reply@.len() == padded_len(old(reply)@.len() as int)) by {
            assert(reply@.len() % 4 == 0);
            assert(old(reply)@.len() <= reply@.len() < old(reply)@.len() + 4);
            assert(padded_len(old(reply)@.len() as int) % 4 == 0);
            assert(old(reply)@.len() <= padded_len(old(reply)@.len() as int) < old(reply)@.len()
                + 4);
        }
        assert(reply@ =~= padded(old(reply)@));
    }
}

/// Pads `reply` and pushes it into the queue under `op_id`.
fn respond(queue: &mut SharedQueue, op_id: u32, reply: Vec<u8>) -> (ok: bool)
    requires
        old(queue).wf(),
        reply@.len() > 0,
        reply@.len() + 3 <= usize::MAX,
    ensures
        final(queue).wf(),
        final(queue).buf_len() == old(queue).buf_len(),
        ok == (old(queue).head_spec() + padded(reply@).len() <= old(queue).buf_len() && old(
            queue,
        ).num_records_spec() < MAX_RECORDS),
        ok ==> final(queue).pending() == old(queue).pending().push((op_id, padded(reply@))),
        !ok ==> *final(queue) == *old(queue),
{
    proof {
        lemma_padded_len(reply@.len() as int);
    }
    let mut padded_reply = reply;
    pad_response(&mut padded_reply);
    queue.push(op_id, padded_reply.as_slice())
}

/// Routes one handler result. A sync reply is pushed back into the queue
/// immediately under the request's own op id: a successful push means
/// exactly one reply became visible to the guest before dispatch returned.
/// An async result leaves the queue untouched; its reply is pushed by
/// `complete_async` when the pending computation finishes.
pub fn dispatch(queue: &mut SharedQueue, op_id: u32, op: Op) -> (r: Dispatched)
    requires
        old(queue).wf(),
        op matches Op::Sync(reply) ==> reply@.len() > 0 && reply@.len() + 3 <= usize::MAX,
    ensures
        final(queue).wf(),
        final(queue).buf_len() == old(queue).buf_len(),
        op is Async ==> r == Dispatched::Parked && *final(queue) == *old(queue),
        op matches Op::Sync(reply) ==> {
            &&& r != Dispatched::Parked
            &&& (r == Dispatched::Replied) == (old(queue).head_spec() + padded(reply@).len() <= old(
                queue,
            ).buf_len() && old(queue).num_records_spec() < MAX_RECORDS)
            &&& (r == Dispatched::Replied ==> final(queue).pending() == old(
                queue,
            ).pending().push((op_id, padded(reply@))))
            &&& (r == Dispatched::Overflow ==> *final(queue) == *old(queue))
        },
{
    match op {
        Op::Sync(reply) => {
            if respond(queue, op_id, reply) {
                Dispatched::Replied
            } else {
                Dispatched::Overflow
            }
        },
        Op::Async => Dispatched::Parked,
    }
}

/// Pushes the serialized reply of a finished async op under its original
/// op id. Each completion pushes exactly one record, whatever order the
/// completions arrive in; on overflow nothing moves and the caller retries
/// after the guest has drained.
pub fn complete_async(queue: &mut SharedQueue, op_id: u32, reply: Vec<u8>) -> (ok: bool)
    requires
        old(queue).wf(),
        reply@.len() > 0,
        reply@.len() + 3 <= usize::MAX,
    ensures
        final(queue).wf(),
        final(queue).buf_len() == old(queue).buf_len(),
        ok == (old(queue).head_spec() + padded(reply@).len() <= old(queue).buf_len() && old(
            queue,
        ).num_records_spec() < MAX_RECORDS),
        ok ==> final(queue).pending() == old(queue).pending().push((op_id, padded(reply@))),
        !ok ==> *final(queue) == *old(queue),
{
    respond(queue, op_id, reply)
}

/// Handlers are registered under names at init and addressed by the 32-bit
/// op ids handed out here; the mapping is stable for the embedding's life.
pub struct OpRegistry {
    names: Vec<String>,
}

impl OpRegistry {
    /// The registered names, in registration order; op id `k` belongs to
    /// the name at position `k - 1`. Op id 0 is never handed out.
    pub closed spec fn names_seq(&self) -> Seq<Seq<char>> {
        Seq::new(self.names@.len(), |i: int| self.names@[i]@)
    }

    pub fn new() -> (r: OpRegistry)
        ensures
            r.names_seq() =~= Seq::<Seq<char>>::empty(),
    {
        OpRegistry { names: Vec::new() }
    }

    /// Registers a handler name and returns its op id.
    pub fn register(&mut self, name: String) -> (op_id: u32)
        requires
            old(self).names_seq().len() + 1 < u32::MAX,
        ensures
            final(self).names_seq() =~= old(self).names_seq().push(name@),
            op_id == old(self).names_seq().len() + 1,
    {
        self.names.push(name);
        self.names.len() as u32
    }

    /// The name registered under `op_id`. An unknown op id resolves to
    /// nothing; the dispatcher treats that as a programmer error, not a
    /// user-level failure.
    pub fn name_of(&self, op_id: u32) -> (r: Option<&String>)
        ensures
            r is Some <==> 1 <= op_id <= self.names_seq().len(),
            r matches Some(n) ==> n@ == self.names_seq()[op_id - 1],
    {
        if op_id >= 1 && (op_id as usize) <= self.names.len() {
            Some(&self.names[(op_id - 1) as usize])
        } else {
            None
        }
    }

    /// How many ops are registered.
    pub fn len(&self) -> (r: usize)
        ensures
            r == self.names_seq().len(),
    {
        self.names.len()
    }
}

/// The compact envelope of the hot-path I/O ops: three little-endian
/// 32-bit signed integers as the entire payload.
#[derive(Clone, Copy, Debug, PartialEq, Eq, Structural)]
pub struct MinimalRecord {
    pub promise_id: i32,
    pub arg: i32,
    pub result: i32,
}

/// A 32-bit value reinterpreted as unsigned.
pub open spec fn unsigned_of(x: int) -> int {
    if x < 0 {
        x + 0x100000000
    } else {
        x
    }
}

/// A 32-bit value reinterpreted as signed (two's complement).
pub open spec fn signed_of(w: int) -> int {
    if w >= 0x80000000 {
        w - 0x100000000
    } else {
        w
    }
}

/// The four little-endian bytes of a 32-bit value.
pub open spec fn le_bytes_of(v: int) -> Seq<u8> {
    seq![
        (v % 0x100) as u8,
        ((v / 0x100) % 0x100) as u8,
        ((v / 0x10000) % 0x100) as u8,
        ((v / 0x1000000) % 0x100) as u8,
    ]
}

/// The 12-byte wire form of a minimal record.
pub open spec fn minimal_bytes(r: MinimalRecord) -> Seq<u8> {
    le_bytes_of(unsigned_of(r.promise_id as int)) + le_bytes_of(unsigned_of(r.arg as int))
        + le_bytes_of(unsigned_of(r.result as int))
}

/// What a payload decodes to: a minimal record exactly when it is 12 bytes.
pub open spec fn minimal_of(b: Seq<u8>) -> Option<MinimalRecord> {
    if b.len() == 12 {
        Some(
            MinimalRecord {
                promise_id: signed_of(word_at(b, 0)) as i32,
                arg: signed_of(word_at(b, 1)) as i32,
                result: signed_of(word_at(b, 2)) as i32,
            },
        )
    } else {
        None
    }
}

/// Appends the four little-endian bytes of `x` (two's complement).
fn push_i32_le(out: &mut Vec<u8>, x: i32)
    requires
        old(out)@.len() + 4 <= usize::MAX,
    ensures
        final(out)@ == old(out)@ + le_bytes_of(unsigned_of(x as int)),
{
    let w: u32 = if x >= 0 {
        x as u32
    } else {
        ((x as i64) + 0x100000000i64) as u32
    };
    out.push((w % 0x100) as u8);
    out.push(((w / 0x100) % 0x100) as u8);
    out.push(((w / 0x10000) % 0x100) as u8);
    out.push(((w / 0x1000000) % 0x100) as u8);
    proof {
        assert(final(out)@ =~= old(out)@ + le_bytes_of(unsigned_of(x as int)));
    }
}

/// Serializes a minimal record to its 12-byte wire form.
pub fn encode_minimal(r: &MinimalRecord) -> (b: Vec<u8>)
    ensures
        b@ == minimal_bytes(*r),
        b@.len() == 12,
{
    let mut out: Vec<u8> = Vec::new();
    push_i32_le(&mut out, r.promise_id);
    push_i32_le(&mut out, r.arg);
    push_i32_le(&mut out, r.result);
    proof {
        assert(out@ =~= minimal_bytes(*r));
    }
    out
}

/// Reads the little-endian 32-bit word at word index `w` of a payload.
fn read_word_slice(b: &[u8], w: usize) -> (r: u32)
    requires
        4 * w + 4 <= b@.len(),
        b@.len() <= u32::MAX,
    ensures
        r == word_at(b@, w as int),
{
    let b0 = b[4 * w];
    let b1 = b[4 * w + 1];
    let b2 = b[4 * w + 2];
    let b3 = b[4 * w + 3];
    (b0 as u32) + (b1 as u32) * 0x100 + (b2 as u32) * 0x10000 + (b3 as u32) * 0x1000000
}

/// Reinterprets a 32-bit word as a signed integer.
fn word_to_i32(w: u32) -> (r: i32)
    ensures
        r == signed_of(w as int),
{
    if w < 0x80000000 {
        w as i32
    } else {
        ((w as i64) - 0x100000000i64) as i32
    }
}

/// Decodes a 12-byte payload into a minimal record; any other length is
/// not a minimal record.
pub fn decode_minimal(b: &[u8]) -> (r: Option<MinimalRecord>)
    ensures
        r == minimal_of(b@),
{
    if b.len() != 12 {
        return None;
    }
    let promise_id = word_to_i32(read_word_slice(b, 0));
    let arg = word_to_i32(read_word_slice(b, 1));
    let result = word_to_i32(read_word_slice(b, 2));
    Some(MinimalRecord { promise_id, arg, result })
}

/// Round trip: decoding the wire form of any minimal record gives back
/// that record.
pub proof fn lemma_minimal_roundtrip(r: MinimalRecord)
    ensures
        minimal_of(minimal_bytes(r)) == Some(r),
{
    let b = minimal_bytes(r);
    lemma_le_decompose(unsigned_of(r.promise_id as int));
    lemma_le_decompose(unsigned_of(r.arg as int));
    lemma_le_decompose(unsigned_of(r.result as int));
    assert(word_at(b, 0) == unsigned_of(r.promise_id as int));
    assert(word_at(b, 1) == unsigned_of(r.arg as int));
    assert(word_at(b, 2) == unsigned_of(r.result as int));
}

} // verus!
