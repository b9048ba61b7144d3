//! The process-wide permission policy. Handlers consult it before any
//! privileged action; a refusal surfaces to the guest as a
//! permission-denied error envelope, never as a panic.

use vstd::prelude::*;

use crate::errors::ErrorKind;
use crate::errors::OpError;

verus! {

/// The character view of an optional host string.
pub open spec fn host_view(host: &Option<String>) -> Option<Seq<char>> {
    match *host {
        Some(ref h) => Some(h@),
        None => None,
    }
}

/// The policy: blanket switches for run, read and write access, and for
/// network access either a blanket switch or a host allowlist.
pub struct Permissions {
    pub allow_run: bool,
    pub allow_net: bool,
    pub net_allowlist: Vec<String>,
    pub allow_read: bool,
    pub allow_write: bool,
}

impl Permissions {
    /// Whether the policy lets the process reach `host`: either the
    /// blanket network switch is on, or the host is on the allowlist.
    pub open spec fn net_allows(&self, host: Option<Seq<char>>) -> bool {
        self.allow_net || (host matches Some(h) && exists|i: int|
            0 <= i < self.net_allowlist@.len() && (#[trigger] self.net_allowlist@[i])@ == h)
    }

    /// A policy that refuses everything.
    pub fn deny_all() -> (r: Permissions)
        ensures
            !r.allow_run,
            !r.allow_net,
            !r.allow_read,
            !r.allow_write,
            r.net_allowlist@.len() == 0,
    {
        Permissions {
            allow_run: false,
            allow_net: false,
            net_allowlist: Vec::new(),
            allow_read: false,
            allow_write: false,
        }
    }

    /// A policy that permits everything.
    pub fn allow_all() -> (r: Permissions)
        ensures
            r.allow_run,
            r.allow_net,
            r.allow_read,
            r.allow_write,
    {
        Permissions {
            allow_run: true,
            allow_net: true,
            net_allowlist: Vec::new(),
            allow_read: true,
            allow_write: true,
        }
    }

    /// Checks network access to the given host of a parsed URL.
    pub fn check_net_url(&self, host: &Option<String>) -> (r: Result<(), OpError>)
        ensures
            r is Ok <==> self.net_allows(host_view(host)),
            r matches Err(e) ==> e.kind == ErrorKind::PermissionDenied,
    {
        if self.allow_net {
            return Ok(());
        }
        match host {
            Some(h) => {
                let n = self.net_allowlist.len();
                let mut k: usize = 0;
                while k < n
                    invariant
                        0 <= k <= n,
                        *host == Some(*h),
                        n == self.net_allowlist@.len(),
                        forall|i: int| 0 <= i < k ==> (#[trigger] self.net_allowlist@[i])@ != h@,
                    decreases n - k,
                {
                    if self.net_allowlist[k].eq(h) {
                        proof {
                            assert(exists|i: int|
                                0 <= i < self.net_allowlist@.len() && (
                                #[trigger] self.net_allowlist@[i])@ == h@) by {
                                assert((self.net_allowlist@[k as int])@ == h@);
                            }
                        }
                        return Ok(());
                    }
                    k += 1;
                }
                Err(OpError::permission_denied())
            },
            None => Err(OpError::permission_denied()),
        }
    }

    /// Checks permission to spawn subprocesses or query their status.
    pub fn check_run(&self) -> (r: Result<(), OpError>)
        ensures
            r is Ok <==> self.allow_run,
            r matches Err(e) ==> e.kind == ErrorKind::PermissionDenied,
    {
        if self.allow_run {
            Ok(())
        } else {
            Err(OpError::permission_denied())
        }
    }

    /// Checks permission to read the filesystem.
    pub fn check_read(&self, _path: &str) -> (r: Result<(), OpError>)
        ensures
            r is Ok <==> self.allow_read,
            r matches Err(e) ==> e.kind == ErrorKind::PermissionDenied,
    {
        if self.allow_read {
            Ok(())
        } else {
            Err(OpError::permission_denied())
        }
    }

    /// Checks permission to write the filesystem.
    pub fn check_write(&self, _path: &str) -> (r: Result<(), OpError>)
        ensures
            r is Ok <==> self.allow_write,
            r matches Err(e) ==> e.kind == ErrorKind::PermissionDenied,
    {
        if self.allow_write {
            Ok(())
        } else {
            Err(OpError::permission_denied())
        }
    }
}

} // verus!
