//! The resource table: a registry mapping opaque 32-bit handles to
//! host-owned objects. Handles are non-zero, strictly increasing, and never
//! reused within a table's lifetime.
//!
//! The variant set is closed, so resources are a tagged union rather than
//! open-ended dynamic dispatch; the host-side OS objects themselves (files,
//! sockets, child processes) live with the embedder, keyed by the handle.

use vstd::prelude::*;

use crate::errors::ErrorKind;
use crate::errors::OpError;

verus! {

/// One host-owned object, tagged by kind. The `Child` variant remembers the
/// OS process id of the spawned child.
#[derive(Clone, Copy, Debug, PartialEq, Eq, Structural)]
pub enum Resource {
    Stdin,
    Stdout,
    Stderr,
    FsFile,
    TcpStream,
    ClientTlsStream,
    ServerTlsStream,
    HttpBody,
    ChildStdin,
    ChildStdout,
    ChildStderr,
    Child { pid: i32 },
}

impl Resource {
    /// Every variant but the child process itself is a byte stream.
    pub open spec fn is_stream_spec(&self) -> bool {
        !(self is Child)
    }

    /// Whether this resource answers reads; writer-only variants return
    /// bad-resource on a read attempt.
    pub open spec fn readable_spec(&self) -> bool {
        match *self {
            Resource::Stdin => true,
            Resource::FsFile => true,
            Resource::TcpStream => true,
            Resource::ClientTlsStream => true,
            Resource::ServerTlsStream => true,
            Resource::HttpBody => true,
            Resource::ChildStdout => true,
            Resource::ChildStderr => true,
            _ => false,
        }
    }

    /// Whether this resource answers writes.
    pub open spec fn writable_spec(&self) -> bool {
        match *self {
            Resource::Stdout => true,
            Resource::Stderr => true,
            Resource::FsFile => true,
            Resource::TcpStream => true,
            Resource::ClientTlsStream => true,
            Resource::ServerTlsStream => true,
            Resource::ChildStdin => true,
            _ => false,
        }
    }

    pub fn is_stream(&self) -> (r: bool)
        ensures
            r == self.is_stream_spec(),
    {
        !matches!(*self, Resource::Child { .. })
    }

    pub fn readable(&self) -> (r: bool)
        ensures
            r == self.readable_spec(),
    {
        matches!(
            *self,
            Resource::Stdin | Resource::FsFile | Resource::TcpStream | Resource::ClientTlsStream
                | Resource::ServerTlsStream | Resource::HttpBody | Resource::ChildStdout
                | Resource::ChildStderr
        )
    }

    pub fn writable(&self) -> (r: bool)
        ensures
            r == self.writable_spec(),
    {
        matches!(
            *self,
            Resource::Stdout | Resource::Stderr | Resource::FsFile | Resource::TcpStream
                | Resource::ClientTlsStream | Resource::ServerTlsStream | Resource::ChildStdin
        )
    }

    /// The short tag used for enumeration.
    pub open spec fn tag_spec(&self) -> Seq<char> {
        match *self {
            Resource::Stdin => "stdin"@,
            Resource::Stdout => "stdout"@,
            Resource::Stderr => "stderr"@,
            Resource::FsFile => "fsFile"@,
            Resource::TcpStream => "tcpStream"@,
            Resource::ClientTlsStream => "clientTlsStream"@,
            Resource::ServerTlsStream => "serverTlsStream"@,
            Resource::HttpBody => "httpBody"@,
            Resource::ChildStdin => "childStdin"@,
            Resource::ChildStdout => "childStdout"@,
            Resource::ChildStderr => "childStderr"@,
            Resource::Child { .. } => "child"@,
        }
    }

    pub fn tag(&self) -> (r: String)
        ensures
            r@ == self.tag_spec(),
    {
        match *self {
            Resource::Stdin => "stdin".to_owned(),
            Resource::Stdout => "stdout".to_owned(),
            Resource::Stderr => "stderr".to_owned(),
            Resource::FsFile => "fsFile".to_owned(),
            Resource::TcpStream => "tcpStream".to_owned(),
            Resource::ClientTlsStream => "clientTlsStream".to_owned(),
            Resource::ServerTlsStream => "serverTlsStream".to_owned(),
            Resource::HttpBody => "httpBody".to_owned(),
            Resource::ChildStdin => "childStdin".to_owned(),
            Resource::ChildStdout => "childStdout".to_owned(),
            Resource::ChildStderr => "childStderr".to_owned(),
            Resource::Child { .. } => "child".to_owned(),
        }
    }
}

/// What a handle maps to in a run of entries, scanning from the front.
pub open spec fn seq_lookup(s: Seq<(u32, Resource)>, rid: u32) -> Option<Resource>
    decreases s.len(),
{
    if s.len() == 0 {
        None
    } else if s[0].0 == rid {
        Some(s[0].1)
    } else {
        seq_lookup(s.drop_first(), rid)
    }
}

/// Appending an entry only affects lookups of handles the run did not hold.
proof fn lemma_seq_lookup_push(s: Seq<(u32, Resource)>, p: (u32, Resource), rid: u32)
    ensures
        seq_lookup(s.push(p), rid) == (if seq_lookup(s, rid) is Some {
            seq_lookup(s, rid)
        } else if p.0 == rid {
            Some(p.1)
        } else {
            None
        }),
    decreases s.len(),
{
    if s.len() == 0 {
        assert(s.push(p)[0] == p);
        assert(s.push(p).drop_first() =~= s);
        assert(seq_lookup(s, rid) is None);
    } else {
        assert(s.push(p)[0] == s[0]);
        assert(s.push(p).drop_first() =~= s.drop_first().push(p));
        lemma_seq_lookup_push(s.drop_first(), p, rid);
    }
}

/// Removing the entry at `at` removes its handle from lookups and leaves
/// every other handle's lookup alone, provided handles are unique.
proof fn lemma_seq_lookup_remove(s: Seq<(u32, Resource)>, at: int, rid: u32)
    requires
        0 <= at < s.len(),
        forall|i: int, j: int| 0 <= i < j < s.len() ==> (#[trigger] s[i].0) != (#[trigger] s[j].0),
    ensures
        seq_lookup(s.remove(at), s[at].0) == (if exists|i: int|
            0 <= i < s.len() && i != at && (#[trigger] s[i].0) == s[at].0 {
            seq_lookup(s, s[at].0)
        } else {
            None::<Resource>
        }),
        rid != s[at].0 ==> seq_lookup(s.remove(at), rid) == seq_lookup(s, rid),
    decreases s.len(),
{
    if at == 0 {
        assert(s.remove(0) =~= s.drop_first());
        lemma_seq_lookup_none_when_absent(s.drop_first(), s[0].0);
    } else {
        assert(s.remove(at).drop_first() =~= s.drop_first().remove(at - 1));
        lemma_seq_lookup_remove(s.drop_first(), at - 1, rid);
    }
}

/// A run holding no entry for `rid` looks `rid` up to nothing.
proof fn lemma_seq_lookup_none_when_absent(s: Seq<(u32, Resource)>, rid: u32)
    requires
        forall|i: int| 0 <= i < s.len() ==> (#[trigger] s[i].0) != rid,
    ensures
        seq_lookup(s, rid) is None,
    decreases s.len(),
{
    if s.len() > 0 {
        lemma_seq_lookup_none_when_absent(s.drop_first(), rid);
    }
}

/// The typed, handle-keyed registry of live resources.
pub struct ResourceTable {
    entries: Vec<(u32, Resource)>,
    next_rid: u32,
}

impl ResourceTable {
    /// The live entries, in allocation order.
    pub closed spec fn entries_seq(&self) -> Seq<(u32, Resource)> {
        self.entries@
    }

    /// The handle the next `add` will return.
    pub closed spec fn next_rid_spec(&self) -> u32 {
        self.next_rid
    }

    /// What `rid` maps to.
    pub open spec fn lookup(&self, rid: u32) -> Option<Resource> {
        seq_lookup(self.entries_seq(), rid)
    }

    pub open spec fn len_spec(&self) -> int {
        self.entries_seq().len() as int
    }

    /// Handles are non-zero, strictly increasing along the entry run, and
    /// all below the next handle to be allocated.
    pub open spec fn wf(&self) -> bool {
        &&& self.next_rid_spec() >= 1
        &&& forall|i: int, j: int|
            0 <= i < j < self.entries_seq().len() ==> (#[trigger] self.entries_seq()[i].0) < (
            #[trigger] self.entries_seq()[j].0)
        &&& forall|i: int|
            0 <= i < self.entries_seq().len() ==> 0 < (#[trigger] self.entries_seq()[i].0)
                < self.next_rid_spec()
    }

    /// An empty table; the first handle handed out is 1.
    pub fn new() -> (t: ResourceTable)
        ensures
            t.wf(),
            t.len_spec() == 0,
            t.next_rid_spec() == 1,
            forall|rid: u32| #[trigger] t.lookup(rid) is None,
    {
        let t = ResourceTable { entries: Vec::new(), next_rid: 1 };
        proof {
            assert(forall|rid: u32| #[trigger] t.lookup(rid) is None);
        }
        t
    }

    /// Stores `resource` under a fresh handle and returns the handle.
    pub fn add(&mut self, resource: Resource) -> (rid: u32)
        requires
            old(self).wf(),
            old(self).next_rid_spec() < u32::MAX,
        ensures
            final(self).wf(),
            rid == old(self).next_rid_spec(),
            final(self).next_rid_spec() == rid + 1,
            old(self).lookup(rid) is None,
            final(self).lookup(rid) == Some(resource),
            forall|r2: u32| r2 != rid ==> final(self).lookup(r2) == old(self).lookup(r2),
            final(self).len_spec() == old(self).len_spec() + 1,
    {
        let rid = self.next_rid;
        proof {
            lemma_seq_lookup_none_when_absent(self.entries@, rid);
            assert forall|r2: u32| r2 != rid implies seq_lookup(
                self.entries@.push((rid, resource)),
                r2,
            ) == seq_lookup(self.entries@, r2) by {
                lemma_seq_lookup_push(self.entries@, (rid, resource), r2);
            }
            lemma_seq_lookup_push(self.entries@, (rid, resource), rid);
        }
        self.entries.push((rid, resource));
        self.next_rid = rid + 1;
        rid
    }

    /// Looks a handle up without any kind check.
    pub fn get(&self, rid: u32) -> (r: Option<&Resource>)
        ensures
            r is Some <==> self.lookup(rid) is Some,
            r matches Some(res) ==> Some(*res) == self.lookup(rid),
    {
        let n = self.entries.len();
        proof {
            assert(self.entries_seq().skip(0) =~= self.entries_seq());
        }
        let mut k: usize = 0;
        while k < n
            invariant
                0 <= k <= n,
                n == self.entries_seq().len(),
                seq_lookup(self.entries_seq(), rid) == seq_lookup(
                    self.entries_seq().skip(k as int),
                    rid,
                ),
                forall|i: int| 0 <= i < k ==> (#[trigger] self.entries_seq()[i].0) != rid,
            decreases n - k,
        {
            proof {
                assert(self.entries_seq().skip(k as int)[0] == self.entries_seq()[k as int]);
                assert(self.entries_seq().skip(k as int).drop_first() =~= self.entries_seq().skip(
                    k as int + 1,
                ));
            }
            if self.entries[k].0 == rid {
                return Some(&self.entries[k].1);
            }
            k += 1;
        }
        proof {
            assert(self.entries_seq().skip(n as int) =~= Seq::<(u32, Resource)>::empty());
        }
        None
    }

    /// Looks a handle up and requires the resource to be a byte stream;
    /// an unknown handle or a wrong-kind resource is the recoverable
    /// bad-resource error, never a panic.
    pub fn get_stream(&self, rid: u32) -> (r: Result<&Resource, OpError>)
        ensures
            r is Ok <==> (self.lookup(rid) matches Some(res) && res.is_stream_spec()),
            r matches Ok(res) ==> Some(*res) == self.lookup(rid),
            r matches Err(e) ==> e.kind == ErrorKind::BadResource,
    {
        match self.get(rid) {
            Some(res) => {
                if res.is_stream() {
                    Ok(res)
                } else {
                    Err(OpError::bad_resource())
                }
            },
            None => Err(OpError::bad_resource()),
        }
    }

    /// Looks a handle up and requires it to be a child process; returns the
    /// child's OS process id.
    pub fn get_child(&self, rid: u32) -> (r: Result<i32, OpError>)
        ensures
            r is Ok <==> (self.lookup(rid) matches Some(res) && res is Child),
            r matches Ok(pid) ==> self.lookup(rid) == Some(Resource::Child { pid }),
            r matches Err(e) ==> e.kind == ErrorKind::BadResource,
    {
        match self.get(rid) {
            Some(res) => {
                match res {
                    Resource::Child { pid } => Ok(*pid),
                    _ => Err(OpError::bad_resource()),
                }
            },
            None => Err(OpError::bad_resource()),
        }
    }

    /// Removes a handle and hands its resource back; the caller owns the
    /// final shutdown. An unknown handle removes nothing.
    pub fn remove(&mut self, rid: u32) -> (r: Option<Resource>)
        requires
            old(self).wf(),
        ensures
            final(self).wf(),
            r == old(self).lookup(rid),
            final(self).lookup(rid) is None,
            forall|r2: u32| r2 != rid ==> final(self).lookup(r2) == old(self).lookup(r2),
            final(self).next_rid_spec() == old(self).next_rid_spec(),
    {
        let n = self.entries.len();
        proof {
            assert(self.entries_seq().skip(0) =~= self.entries_seq());
        }
        let mut k: usize = 0;
        while k < n
            invariant
                0 <= k <= n,
                *self == *old(self),
                self.wf(),
                n == self.entries_seq().len(),
                seq_lookup(self.entries_seq(), rid) == seq_lookup(
                    self.entries_seq().skip(k as int),
                    rid,
                ),
                forall|i: int| 0 <= i < k ==> (#[trigger] self.entries_seq()[i].0) != rid,
            decreases n - k,
        {
            proof {
                assert(self.entries_seq().skip(k as int)[0] == self.entries_seq()[k as int]);
                assert(self.entries_seq().skip(k as int).drop_first() =~= self.entries_seq().skip(
                    k as int + 1,
                ));
            }
            if self.entries[k].0 == rid {
                proof {
                    lemma_seq_lookup_remove(self.entries_seq(), k as int, rid);
                    assert forall|r2: u32| r2 != rid implies seq_lookup(
                        self.entries_seq().remove(k as int),
                        r2,
                    ) == seq_lookup(self.entries_seq(), r2) by {
                        lemma_seq_lookup_remove(self.entries_seq(), k as int, r2);
                    }
                    assert(!(exists|i: int|
                        0 <= i < self.entries_seq().len() && i != k && (
                        #[trigger] self.entries_seq()[i].0) == rid));
                }
                let entry = self.entries.remove(k);
                return Some(entry.1);
            }
            k += 1;
        }
        proof {
            assert(self.entries_seq().skip(n as int) =~= Seq::<(u32, Resource)>::empty());
        }
        None
    }

    /// A snapshot of all live handles with their tags, for enumeration.
    pub fn entries(&self) -> (r: Vec<(u32, String)>)
        ensures
            r@.len() == self.entries_seq().len(),
            forall|i: int|
                0 <= i < r@.len() ==> (#[trigger] r@[i]).0 == self.entries_seq()[i].0 && r@[i].1@
                    == self.entries_seq()[i].1.tag_spec(),
    {
        let n = self.entries.len();
        let mut out: Vec<(u32, String)> = Vec::new();
        let mut k: usize = 0;
        while k < n
            invariant
                0 <= k <= n,
                n == self.entries_seq().len(),
                out@.len() == k,
                forall|i: int|
                    0 <= i < k ==> (#[trigger] out@[i]).0 == self.entries_seq()[i].0 && out@[i].1@
                        == self.entries_seq()[i].1.tag_spec(),
            decreases n - k,
        {
            let rid = self.entries[k].0;
            let tag = self.entries[k].1.tag();
            out.push((rid, tag));
            k += 1;
        }
        out
    }

    /// How many resources are live.
    pub fn len(&self) -> (r: usize)
        ensures
            r == self.len_spec(),
    {
        self.entries.len()
    }

    /// The handle the next `add` will return; callers that must allocate
    /// can test the remaining handle space against it first.
    pub fn next_rid(&self) -> (r: u32)
        ensures
            r == self.next_rid_spec(),
    {
        self.next_rid
    }
}

/// Handles never repeat: every live handle sits strictly below the handle
/// the next `add` returns, and the run of live handles is strictly
/// increasing in allocation order. With `add`'s contract - it returns
/// exactly `next_rid` and bumps it - every handle ever handed out is
/// strictly greater than all handed out before it.
pub proof fn lemma_handles_strictly_increase(t: &ResourceTable)
    requires
        t.wf(),
    ensures
        forall|i: int|
            0 <= i < t.entries_seq().len() ==> (#[trigger] t.entries_seq()[i].0)
                < t.next_rid_spec(),
        forall|i: int, j: int|
            0 <= i < j < t.entries_seq().len() ==> (#[trigger] t.entries_seq()[i].0) < (
            #[trigger] t.entries_seq()[j].0),
{
}

} // verus!
