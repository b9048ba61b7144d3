//! The hot-path read and write ops over the stream adapter, and the
//! mapping of their outcomes into the compact three-integer envelope.
//!
//! Reads and writes are single-shot: each op completes exactly once, and
//! completing one twice is a programmer error, not a user-level failure.
//! A missing zero-copy buffer is the no-buffer error; a handle that names
//! no stream, or a stream of the wrong direction, is bad-resource.

use vstd::prelude::*;

use crate::dispatch::MinimalRecord;
use crate::errors::ErrorKind;
use crate::errors::OpError;
use crate::resources::Resource;
use crate::resources::ResourceTable;

verus! {

/// Whether a single-shot I/O op still awaits its completion.
#[derive(Clone, Copy, Debug, PartialEq, Eq, Structural)]
pub enum IoState {
    Pending,
    Done,
}

/// A single-shot read of up to `buf_len` bytes from the stream under
/// `rid`; the zero-copy buffer itself stays with the embedder.
#[derive(Debug)]
pub struct Read {
    pub rid: u32,
    pub buf_len: usize,
    pub io_state: IoState,
}

/// A single-shot write of one buffer of `buf_len` bytes to the stream
/// under `rid`.
#[derive(Debug)]
pub struct Write {
    pub rid: u32,
    pub buf_len: usize,
    pub io_state: IoState,
}

/// Begins a read from the stream under `rid` into a buffer of `buf_len`
/// bytes.
pub fn read(rid: u32, buf_len: usize) -> (r: Read)
    ensures
        r.rid == rid,
        r.buf_len == buf_len,
        r.io_state == IoState::Pending,
{
    Read { rid, buf_len, io_state: IoState::Pending }
}

/// Begins a write of a buffer of `buf_len` bytes to the stream under
/// `rid`.
pub fn write(rid: u32, buf_len: usize) -> (r: Write)
    ensures
        r.rid == rid,
        r.buf_len == buf_len,
        r.io_state == IoState::Pending,
{
    Write { rid, buf_len, io_state: IoState::Pending }
}

impl Read {
    /// Records the completion of this read with `nread` bytes (0 is end
    /// of stream) and returns the count the envelope carries. A read never
    /// yields more than the buffer holds, and is single-shot: a completed
    /// read cannot complete again.
    pub fn complete(&mut self, nread: i32) -> (r: i32)
        requires
            old(self).io_state == IoState::Pending,
            0 <= nread <= old(self).buf_len,
        ensures
            final(self).io_state == IoState::Done,
            final(self).rid == old(self).rid,
            final(self).buf_len == old(self).buf_len,
            r == nread,
            0 <= r <= old(self).buf_len,
    {
        self.io_state = IoState::Done;
        nread
    }
}

impl Write {
    /// Records the completion of this write with `nwritten` bytes and
    /// returns the count the envelope carries. A write never consumes more
    /// than the buffer holds; single-shot.
    pub fn complete(&mut self, nwritten: i32) -> (r: i32)
        requires
            old(self).io_state == IoState::Pending,
            0 <= nwritten <= old(self).buf_len,
        ensures
            final(self).io_state == IoState::Done,
            final(self).rid == old(self).rid,
            final(self).buf_len == old(self).buf_len,
            r == nwritten,
            0 <= r <= old(self).buf_len,
    {
        self.io_state = IoState::Done;
        nwritten
    }
}

/// The read op: a zero-copy buffer must accompany the record, otherwise
/// the op fails with no-buffer before any stream is touched; a negative
/// handle names no resource and is bad-resource.
pub fn op_read(rid: i32, zero_copy_len: Option<usize>) -> (r: Result<Read, OpError>)
    ensures
        r is Ok <==> (zero_copy_len is Some && rid >= 0),
        r matches Ok(f) ==> f.rid == rid && f.io_state == IoState::Pending && Some(f.buf_len)
            == zero_copy_len,
        r matches Err(e) ==> (e.kind == ErrorKind::NoBuffer <==> zero_copy_len is None) && (e.kind
            == ErrorKind::NoBuffer || e.kind == ErrorKind::BadResource),
{
    match zero_copy_len {
        Some(len) => {
            if rid >= 0 {
                Ok(read(rid as u32, len))
            } else {
                Err(OpError::bad_resource())
            }
        },
        None => Err(OpError::no_buffer()),
    }
}

/// The write op: same gates as the read op.
pub fn op_write(rid: i32, zero_copy_len: Option<usize>) -> (r: Result<Write, OpError>)
    ensures
        r is Ok <==> (zero_copy_len is Some && rid >= 0),
        r matches Ok(f) ==> f.rid == rid && f.io_state == IoState::Pending && Some(f.buf_len)
            == zero_copy_len,
        r matches Err(e) ==> (e.kind == ErrorKind::NoBuffer <==> zero_copy_len is None) && (e.kind
            == ErrorKind::NoBuffer || e.kind == ErrorKind::BadResource),
{
    match zero_copy_len {
        Some(len) => {
            if rid >= 0 {
                Ok(write(rid as u32, len))
            } else {
                Err(OpError::bad_resource())
            }
        },
        None => Err(OpError::no_buffer()),
    }
}

/// Whether the stream under `rid` answers reads: the handle must be live,
/// a stream, and a readable one; anything else is bad-resource.
pub fn poll_read_check<'a>(table: &'a ResourceTable, rid: u32) -> (r: Result<&'a Resource, OpError>)
    ensures
        r is Ok <==> (table.lookup(rid) matches Some(res) && res.readable_spec()),
        r matches Ok(res) ==> Some(*res) == table.lookup(rid),
        r matches Err(e) ==> e.kind == ErrorKind::BadResource,
{
    match table.get(rid) {
        Some(res) => {
            if res.readable() {
                Ok(res)
            } else {
                Err(OpError::bad_resource())
            }
        },
        None => Err(OpError::bad_resource()),
    }
}

/// Whether the stream under `rid` answers writes.
pub fn poll_write_check<'a>(table: &'a ResourceTable, rid: u32) -> (r: Result<
    &'a Resource,
    OpError,
>)
    ensures
        r is Ok <==> (table.lookup(rid) matches Some(res) && res.writable_spec()),
        r matches Ok(res) ==> Some(*res) == table.lookup(rid),
        r matches Err(e) ==> e.kind == ErrorKind::BadResource,
{
    match table.get(rid) {
        Some(res) => {
            if res.writable() {
                Ok(res)
            } else {
                Err(OpError::bad_resource())
            }
        },
        None => Err(OpError::bad_resource()),
    }
}

/// Whether the stream under `rid` can be closed: closing flushes and
/// shuts the writer side, so the capability follows the writers.
pub fn poll_close_check<'a>(table: &'a ResourceTable, rid: u32) -> (r: Result<
    &'a Resource,
    OpError,
>)
    ensures
        r is Ok <==> (table.lookup(rid) matches Some(res) && res.writable_spec()),
        r matches Ok(res) ==> Some(*res) == table.lookup(rid),
        r matches Err(e) ==> e.kind == ErrorKind::BadResource,
{
    match table.get(rid) {
        Some(res) => {
            if res.writable() {
                Ok(res)
            } else {
                Err(OpError::bad_resource())
            }
        },
        None => Err(OpError::bad_resource()),
    }
}

/// The negative code a failure kind takes in the minimal envelope.
pub open spec fn error_code_spec(kind: ErrorKind) -> int {
    match kind {
        ErrorKind::BadResource => -1,
        ErrorKind::NoBuffer => -2,
        ErrorKind::PermissionDenied => -3,
        ErrorKind::Io => -4,
        ErrorKind::Parse => -5,
        ErrorKind::Overflow => -6,
    }
}

pub fn error_code(kind: ErrorKind) -> (r: i32)
    ensures
        r == error_code_spec(kind),
        r < 0,
{
    match kind {
        ErrorKind::BadResource => -1,
        ErrorKind::NoBuffer => -2,
        ErrorKind::PermissionDenied => -3,
        ErrorKind::Io => -4,
        ErrorKind::Parse => -5,
        ErrorKind::Overflow => -6,
    }
}

/// Shapes an I/O outcome as a minimal record: a non-negative byte count
/// on success, the failure kind's negative code otherwise, always under
/// the request's promise id.
pub fn minimal_response(promise_id: i32, outcome: &Result<i32, OpError>) -> (r: MinimalRecord)
    requires
        outcome matches Ok(n) ==> n >= 0,
    ensures
        r.promise_id == promise_id,
        r.arg == 0,
        outcome matches Ok(n) ==> r.result == n,
        outcome matches Err(e) ==> r.result == error_code_spec(e.kind),
{
    match outcome {
        Ok(n) => MinimalRecord { promise_id, arg: 0, result: *n },
        Err(e) => MinimalRecord { promise_id, arg: 0, result: error_code(e.kind) },
    }
}

/// The three standard streams as resources. The embedder clones each from
/// a process-wide OS handle that outlives every resource cloned from it,
/// so closing a stream resource never closes the process's own stdout.
pub fn get_stdio() -> (r: (Resource, Resource, Resource))
    ensures
        r.0 == Resource::Stdin,
        r.1 == Resource::Stdout,
        r.2 == Resource::Stderr,
{
    (Resource::Stdin, Resource::Stdout, Resource::Stderr)
}

} // verus!
