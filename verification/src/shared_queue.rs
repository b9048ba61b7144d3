//! A fixed-capacity binary queue of variable-length records, each tagged with
//! a 32-bit op identifier, laid out in a single shared byte buffer.
//!
//! Layout, in little-endian 32-bit words from the buffer start:
//! word 0 counts the records pushed since the last reset, word 1 the records
//! shifted off, word 2 is the head (the next free byte offset), and words
//! 3 .. 3 + 2 * MAX_RECORDS hold interleaved (end_offset, op_id) pairs, one
//! per record slot. Record bodies start at byte HEAD_INIT.

use vstd::prelude::*;

verus! {

/// Static slot count of the queue.
pub const MAX_RECORDS: usize = 100;

pub const INDEX_NUM_RECORDS: usize = 0;

pub const INDEX_NUM_SHIFTED_OFF: usize = 1;

pub const INDEX_HEAD: usize = 2;

pub const INDEX_OFFSETS: usize = 3;

pub const INDEX_RECORDS: usize = INDEX_OFFSETS + 2 * MAX_RECORDS;

/// Byte offset at which record bodies begin; the head starts here.
pub const HEAD_INIT: usize = 4 * INDEX_RECORDS;

/// A rough guess at how big the shared buffer should be, in bytes.
pub const RECOMMENDED_SIZE: usize = 128 * MAX_RECORDS;

/// The little-endian 32-bit word stored at word index `w` of `s`.
pub open spec fn word_at(s: Seq<u8>, w: int) -> int {
    s[4 * w] + s[4 * w + 1] * 0x100 + s[4 * w + 2] * 0x10000 + s[4 * w + 3] * 0x1000000
}

/// Reads the little-endian 32-bit word at word index `w`.
fn read_word(bytes: &Vec<u8>, w: usize) -> (r: u32)
    requires
        4 * w + 4 <= bytes@.len(),
        bytes@.len() <= u32::MAX,
    ensures
        r == word_at(bytes@, w as int),
{
    let b0 = bytes[4 * w];
    let b1 = bytes[4 * w + 1];
    let b2 = bytes[4 * w + 2];
    let b3 = bytes[4 * w + 3];
    (b0 as u32) + (b1 as u32) * 0x100 + (b2 as u32) * 0x10000 + (b3 as u32) * 0x1000000
}

/// The byte decomposition used when storing a 32-bit word little-endian.
pub(crate) proof fn lemma_le_decompose(v: int)
    requires
        0 <= v < 0x100000000,
    ensures
        v % 0x100 + ((v / 0x100) % 0x100) * 0x100 + ((v / 0x10000) % 0x100) * 0x10000 + ((v
            / 0x1000000) % 0x100) * 0x1000000 == v,
{
    assert(v % 0x100 + ((v / 0x100) % 0x100) * 0x100 + ((v / 0x10000) % 0x100) * 0x10000 + ((v
        / 0x1000000) % 0x100) * 0x1000000 == v) by (nonlinear_arith)
        requires
            0 <= v < 0x100000000,
    ;
}

/// Stores `v` as a little-endian 32-bit word at word index `w`; every byte
/// outside that word keeps its value.
fn write_word(bytes: &mut Vec<u8>, w: usize, v: u32)
    requires
        4 * w + 4 <= old(bytes)@.len(),
        old(bytes)@.len() <= u32::MAX,
    ensures
        final(bytes)@.len() == old(bytes)@.len(),
        word_at(final(bytes)@, w as int) == v,
        forall|i: int|
            0 <= i < final(bytes)@.len() && !(4 * w <= i < 4 * w + 4) ==> final(bytes)@[i]
                == old(bytes)@[i],
{
    let b0 = (v % 0x100) as u8;
    let b1 = ((v / 0x100) % 0x100) as u8;
    let b2 = ((v / 0x10000) % 0x100) as u8;
    let b3 = ((v / 0x1000000) % 0x100) as u8;
    bytes.set(4 * w, b0);
    bytes.set(4 * w + 1, b1);
    bytes.set(4 * w + 2, b2);
    bytes.set(4 * w + 3, b3);
    proof {
        lemma_le_decompose(v as int);
    }
}

/// The shared record queue. Exactly one guest thread writes and one host
/// thread reads; the buffer itself carries all queue state.
pub struct SharedQueue {
    bytes: Vec<u8>,
}

impl SharedQueue {
    /// The whole shared buffer.
    pub closed spec fn buf(&self) -> Seq<u8> {
        self.bytes@
    }

    /// Total byte length of the shared buffer.
    pub open spec fn buf_len(&self) -> int {
        self.buf().len() as int
    }

    /// Records pushed since the last reset (header word 0).
    pub closed spec fn num_records_spec(&self) -> int {
        word_at(self.bytes@, INDEX_NUM_RECORDS as int)
    }

    /// Records shifted off since the last reset (header word 1).
    pub closed spec fn num_shifted_off_spec(&self) -> int {
        word_at(self.bytes@, INDEX_NUM_SHIFTED_OFF as int)
    }

    /// Next free byte offset (header word 2); grows until the queue drains.
    pub closed spec fn head_spec(&self) -> int {
        word_at(self.bytes@, INDEX_HEAD as int)
    }

    /// Currently resident records.
    pub open spec fn size_spec(&self) -> int {
        self.num_records_spec() - self.num_shifted_off_spec()
    }

    /// End offset recorded for record slot `i`.
    pub closed spec fn end_at(&self, i: int) -> int {
        word_at(self.bytes@, INDEX_OFFSETS + 2 * i)
    }

    /// Op identifier recorded for record slot `i`.
    pub closed spec fn op_at(&self, i: int) -> u32 {
        word_at(self.bytes@, INDEX_OFFSETS + 2 * i + 1) as u32
    }

    /// Start offset of record slot `i`: records are laid out back to back
    /// from HEAD_INIT.
    pub open spec fn start_at(&self, i: int) -> int {
        if i == 0 {
            HEAD_INIT as int
        } else {
            self.end_at(i - 1)
        }
    }

    /// The bytes of record slot `i`.
    pub open spec fn record_at(&self, i: int) -> Seq<u8> {
        self.buf().subrange(self.start_at(i), self.end_at(i))
    }

    /// The header invariant both sides rely on.
    pub open spec fn wf(&self) -> bool {
        &&& HEAD_INIT <= self.buf().len() <= u32::MAX
        &&& 0 <= self.num_shifted_off_spec() <= self.num_records_spec() <= MAX_RECORDS
        &&& (self.num_shifted_off_spec() == 0 || self.num_shifted_off_spec()
            < self.num_records_spec())
        &&& HEAD_INIT <= self.head_spec() <= self.buf().len()
        &&& (self.num_records_spec() == 0 ==> self.head_spec() == HEAD_INIT)
        &&& (self.num_records_spec() > 0 ==> self.end_at(self.num_records_spec() - 1)
            == self.head_spec())
        &&& forall|i: int|
            0 <= i < self.num_records_spec() ==> HEAD_INIT <= (#[trigger] self.start_at(i))
                < self.end_at(i) <= self.head_spec() && (self.end_at(i) - self.start_at(i)) % 4
                == 0
    }

    /// The resident records, oldest first, each with its op identifier.
    pub open spec fn pending(&self) -> Seq<(u32, Seq<u8>)> {
        Seq::new(
            self.size_spec() as nat,
            |k: int|
                (
                    self.op_at(self.num_shifted_off_spec() + k),
                    self.record_at(self.num_shifted_off_spec() + k),
                ),
        )
    }

    /// Makes a queue whose body region holds `len` bytes.
    pub fn new(len: usize) -> (q: SharedQueue)
        requires
            HEAD_INIT + len <= u32::MAX,
        ensures
            q.wf(),
            q.buf_len() == HEAD_INIT + len,
            q.num_records_spec() == 0,
            q.num_shifted_off_spec() == 0,
            q.head_spec() == HEAD_INIT,
            q.pending() =~= Seq::<(u32, Seq<u8>)>::empty(),
    {
        let total = HEAD_INIT + len;
        let mut bytes: Vec<u8> = Vec::new();
        while bytes.len() < total
            invariant
                bytes@.len() <= total,
            decreases total - bytes@.len(),
        {
            bytes.push(0);
        }
        let mut q = SharedQueue { bytes };
        q.reset();
        q
    }

    /// Clears the three counters; record metadata need not be zeroed.
    fn reset(&mut self)
        requires
            HEAD_INIT <= old(self).buf().len() <= u32::MAX,
        ensures
            final(self).wf(),
            final(self).buf_len() == old(self).buf_len(),
            final(self).num_records_spec() == 0,
            final(self).num_shifted_off_spec() == 0,
            final(self).head_spec() == HEAD_INIT,
            forall|i: int|
                4 * INDEX_OFFSETS <= i < final(self).buf().len() ==> final(self).buf()[i] == old(
                    self,
                ).buf()[i],
    {
        write_word(&mut self.bytes, INDEX_NUM_RECORDS, 0);
        write_word(&mut self.bytes, INDEX_NUM_SHIFTED_OFF, 0);
        write_word(&mut self.bytes, INDEX_HEAD, HEAD_INIT as u32);
    }

    /// The raw byte range shared with the guest.
    pub fn as_buffer_view(&self) -> (r: &[u8])
        ensures
            r@ == self.buf(),
    {
        self.bytes.as_slice()
    }

    /// How many records are resident.
    pub fn size(&self) -> (r: usize)
        requires
            self.wf(),
        ensures
            r == self.size_spec(),
    {
        let nr = read_word(&self.bytes, INDEX_NUM_RECORDS);
        let ns = read_word(&self.bytes, INDEX_NUM_SHIFTED_OFF);
        (nr - ns) as usize
    }

    /// Records pushed since the last reset.
    pub fn num_records(&self) -> (r: usize)
        requires
            self.wf(),
        ensures
            r == self.num_records_spec(),
    {
        read_word(&self.bytes, INDEX_NUM_RECORDS) as usize
    }

    /// The next free byte offset.
    pub fn head(&self) -> (r: usize)
        requires
            self.wf(),
        ensures
            r == self.head_spec(),
    {
        read_word(&self.bytes, INDEX_HEAD) as usize
    }

    /// Records shifted off since the last reset.
    pub fn num_shifted_off(&self) -> (r: usize)
        requires
            self.wf(),
        ensures
            r == self.num_shifted_off_spec(),
    {
        read_word(&self.bytes, INDEX_NUM_SHIFTED_OFF) as usize
    }

    /// Sets slot `index`'s (end offset, op id) pair; no other byte moves.
    fn set_meta(&mut self, index: usize, end: usize, op_id: u32)
        requires
            index < MAX_RECORDS,
            HEAD_INIT <= old(self).buf().len() <= u32::MAX,
            end <= u32::MAX,
        ensures
            final(self).buf().len() == old(self).buf().len(),
            final(self).end_at(index as int) == end,
            final(self).op_at(index as int) == op_id,
            forall|i: int|
                0 <= i < final(self).buf().len() && !(4 * (INDEX_OFFSETS + 2 * index) <= i < 4 * (
                INDEX_OFFSETS + 2 * index) + 8) ==> final(self).buf()[i] == old(self).buf()[i],
    {
        write_word(&mut self.bytes, INDEX_OFFSETS + 2 * index, end as u32);
        write_word(&mut self.bytes, INDEX_OFFSETS + 2 * index + 1, op_id);
    }

    /// The (op id, end offset) pair of slot `index`, if that slot is filled.
    pub fn get_meta(&self, index: usize) -> (r: Option<(u32, usize)>)
        requires
            self.wf(),
        ensures
            r is Some <==> index < self.num_records_spec(),
            r matches Some(p) ==> p.0 == self.op_at(index as int) && p.1 == self.end_at(
                index as int,
            ),
    {
        if index < self.num_records() {
            let end = read_word(&self.bytes, INDEX_OFFSETS + 2 * index);
            let op_id = read_word(&self.bytes, INDEX_OFFSETS + 2 * index + 1);
            Some((op_id, end as usize))
        } else {
            None
        }
    }

    /// The start offset of slot `index`, if that slot is filled.
    pub fn get_offset(&self, index: usize) -> (r: Option<usize>)
        requires
            self.wf(),
        ensures
            r is Some <==> index < self.num_records_spec(),
            r matches Some(off) ==> off == self.start_at(index as int),
    {
        if index < self.num_records() {
            if index == 0 {
                Some(HEAD_INIT)
            } else {
                Some(read_word(&self.bytes, INDEX_OFFSETS + 2 * (index - 1)) as usize)
            }
        } else {
            None
        }
    }

    /// Appends `record` under `op_id`. Returns false, moving nothing, when
    /// the body would not fit or every record slot is taken; the caller must
    /// treat that as backpressure and retry after the guest drains.
    #[verifier::rlimit(50)]
    pub fn push(&mut self, op_id: u32, record: &[u8]) -> (ok: bool)
        requires
            old(self).wf(),
            record@.len() > 0,
            record@.len() % 4 == 0,
        ensures
            final(self).wf(),
            final(self).buf_len() == old(self).buf_len(),
            ok == (old(self).head_spec() + record@.len() <= old(self).buf_len()
                && old(self).num_records_spec() < MAX_RECORDS),
            ok ==> {
                &&& final(self).num_records_spec() == old(self).num_records_spec() + 1
                &&& final(self).num_shifted_off_spec() == old(self).num_shifted_off_spec()
                &&& final(self).head_spec() == old(self).head_spec() + record@.len()
                &&& final(self).pending() == old(self).pending().push((op_id, record@))
            },
            !ok ==> *final(self) == *old(self),
    {
        let off = self.head();
        let index = self.num_records();
        if record.len() > self.bytes.len() - off || index >= MAX_RECORDS {
            return false;
        }
        let end = off + record.len();
        self.set_meta(index, end, op_id);
        let ghost after_meta = self.bytes@;
        let mut j: usize = 0;
        while j < record.len()
            invariant
                j <= record@.len(),
                off + record@.len() == end,
                end <= self.bytes@.len(),
                self.bytes@.len() == after_meta.len(),
                forall|i: int|
                    0 <= i < self.bytes@.len() && !(off <= i < off + j) ==> self.bytes@[i]
                        == after_meta[i],
                forall|i: int| 0 <= i < j ==> self.bytes@[off + i] == record@[i],
            decreases record@.len() - j,
        {
            let b = record[j];
            self.bytes.set(off + j, b);
            j += 1;
        }
        let ghost after_copy = self.bytes@;
        write_word(&mut self.bytes, INDEX_NUM_RECORDS, (index + 1) as u32);
        let ghost after_nr = self.bytes@;
        write_word(&mut self.bytes, INDEX_HEAD, end as u32);
        proof {
            let pre = old(self);
            let nr_old = pre.num_records_spec();
            let ns = pre.num_shifted_off_spec();
            // Bytes below the new record and outside the touched header words
            // carry over from the pre-state.
            assert(forall|i: int|
                0 <= i < self.bytes@.len() && !(off <= i < end) && !(0 <= i < 4) && !(8 <= i < 12)
                    && !(4 * (INDEX_OFFSETS + 2 * index) <= i < 4 * (INDEX_OFFSETS + 2 * index)
                    + 8) ==> self.bytes@[i] == pre.buf()[i]);
            assert(self.num_records_spec() == nr_old + 1);
            assert(self.num_shifted_off_spec() == ns);
            assert(self.head_spec() == end);
            // Every earlier slot keeps its metadata words.
            assert(forall|i: int|
                0 <= i < index ==> #[trigger] self.end_at(i) == pre.end_at(i) && self.op_at(i)
                    == pre.op_at(i));
            assert(self.end_at(index as int) == end && self.op_at(index as int) == op_id);
            assert(self.start_at(index as int) == off);
            assert(forall|i: int| 0 <= i < index ==> #[trigger] self.start_at(i) == pre.start_at(i));
            // Every earlier slot keeps its bytes.
            assert(forall|i: int|
                0 <= i < index ==> #[trigger] self.record_at(i) =~= pre.record_at(i)) by {
                assert forall|i: int| 0 <= i < index implies #[trigger] self.record_at(i)
                    =~= pre.record_at(i) by {
                    assert(self.start_at(i) == pre.start_at(i));
                    assert(self.end_at(i) == pre.end_at(i));
                }
            }
            assert(self.record_at(index as int) =~= record@);
            assert forall|i: int| 0 <= i < self.num_records_spec() implies HEAD_INIT <= (
            #[trigger] self.start_at(i)) < self.end_at(i) <= self.head_spec() && (self.end_at(i)
                - self.start_at(i)) % 4 == 0 by {
                if i < index {
                    assert(self.start_at(i) == pre.start_at(i));
                    assert(pre.start_at(i) < pre.end_at(i) <= pre.head_spec());
                }
            }
            assert(self.wf());
            assert(self.pending() =~= pre.pending().push((op_id, record@))) by {
                assert(self.size_spec() == pre.size_spec() + 1);
                assert forall|k: int| 0 <= k < pre.size_spec() implies #[trigger] self.pending()[k]
                    == pre.pending()[k] by {
                    assert(self.record_at(ns + k) =~= pre.record_at(ns + k));
                }
                assert(self.pending()[pre.size_spec()] == (op_id, record@)) by {
                    assert(self.record_at(ns + pre.size_spec()) =~= record@);
                }
            }
        }
        true
    }

    /// Removes and returns the oldest resident record with its op id, or
    /// returns nothing when the queue is empty. Draining the last record
    /// resets the queue, reclaiming the whole body region at once.
    pub fn shift(&mut self) -> (r: Option<(u32, Vec<u8>)>)
        requires
            old(self).wf(),
        ensures
            final(self).wf(),
            final(self).buf_len() == old(self).buf_len(),
            old(self).size_spec() == 0 ==> r is None && *final(self) == *old(self),
            old(self).size_spec() > 0 ==> {
                let i = old(self).num_shifted_off_spec();
                &&& r matches Some(p) && p.0 == old(self).op_at(i) && p.1@ == old(self).record_at(i)
                &&& final(self).pending() == old(self).pending().drop_first()
                &&& (old(self).size_spec() == 1 ==> {
                    &&& final(self).num_records_spec() == 0
                    &&& final(self).num_shifted_off_spec() == 0
                    &&& final(self).head_spec() == HEAD_INIT
                    &&& forall|t: int|
                        4 * INDEX_OFFSETS <= t < final(self).buf().len() ==> final(self).buf()[t]
                            == old(self).buf()[t]
                })
                &&& (old(self).size_spec() > 1 ==> {
                    &&& final(self).num_records_spec() == old(self).num_records_spec()
                    &&& final(self).num_shifted_off_spec() == i + 1
                    &&& final(self).head_spec() == old(self).head_spec()
                    &&& forall|t: int|
                        0 <= t < final(self).buf().len() && !(4 * INDEX_NUM_SHIFTED_OFF <= t < 4
                            * INDEX_NUM_SHIFTED_OFF + 4) ==> final(self).buf()[t] == old(
                            self,
                        ).buf()[t]
                })
            },
    {
        let sz = self.size();
        if sz == 0 {
            return None;
        }
        let i = self.num_shifted_off();
        let off = self.get_offset(i).unwrap();
        let (op_id, end) = self.get_meta(i).unwrap();
        let mut data: Vec<u8> = Vec::new();
        let mut j: usize = off;
        while j < end
            invariant
                off <= j <= end,
                end <= self.bytes@.len(),
                data@.len() == j - off,
                forall|t: int| 0 <= t < data@.len() ==> data@[t] == self.bytes@[off + t],
            decreases end - j,
        {
            let b = self.bytes[j];
            data.push(b);
            j += 1;
        }
        proof {
            assert(data@ =~= old(self).record_at(old(self).num_shifted_off_spec() as int));
        }
        if sz > 1 {
            write_word(&mut self.bytes, INDEX_NUM_SHIFTED_OFF, (i + 1) as u32);
            proof {
                let pre = old(self);
                let ns = pre.num_shifted_off_spec();
                assert(self.num_records_spec() == pre.num_records_spec());
                assert(self.head_spec() == pre.head_spec());
                assert(self.num_shifted_off_spec() == ns + 1);
                assert(forall|t: int|
                    0 <= t < pre.num_records_spec() ==> #[trigger] self.end_at(t) == pre.end_at(t)
                        && self.op_at(t) == pre.op_at(t));
                assert(forall|t: int|
                    0 <= t < pre.num_records_spec() ==> #[trigger] self.start_at(t)
                        == pre.start_at(t));
                assert forall|t: int| 0 <= t < self.num_records_spec() implies HEAD_INIT <= (
                #[trigger] self.start_at(t)) < self.end_at(t) <= self.head_spec() && (self.end_at(
                    t,
                ) - self.start_at(t)) % 4 == 0 by {
                    assert(pre.start_at(t) < pre.end_at(t) <= pre.head_spec());
                }
                assert(self.wf());
                assert(self.pending() =~= pre.pending().drop_first()) by {
                    assert forall|k: int| 0 <= k < self.size_spec() implies #[trigger] self.pending()[k]
                        == pre.pending()[k + 1] by {
                        assert(self.record_at(ns + 1 + k) =~= pre.record_at(ns + 1 + k));
                    }
                }
            }
        } else {
            self.reset();
            proof {
                assert(self.pending() =~= old(self).pending().drop_first());
            }
        }
        Some((op_id, data))
    }
}

/// A drained queue is fully reclaimed: once no record is resident, both
/// counters are zero again and the head is back at HEAD_INIT, so the whole
/// body region is free. Together with the contracts of `push` and `shift`,
/// which move `size` up and down by exactly one, this pins the
/// reset-on-empty policy.
pub proof fn lemma_drained_queue_is_reset(q: &SharedQueue)
    requires
        q.wf(),
        q.size_spec() == 0,
    ensures
        q.num_records_spec() == 0,
        q.num_shifted_off_spec() == 0,
        q.head_spec() == HEAD_INIT,
{
}

} // verus!
