//! The subprocess ops: planning a spawn from the run op's arguments,
//! registering a spawned child and its piped streams in the resource
//! table, shaping the run-status reply, and the kill op.

use vstd::prelude::*;

use crate::errors::ErrorKind;
use crate::errors::OpError;
use crate::permissions::Permissions;
use crate::resources::Resource;
use crate::resources::ResourceTable;
use crate::signal::is_signal;

verus! {

/// The run op's decoded arguments. Each standard stream is either a named
/// policy ("inherit", "piped" or "null", with the rid 0) or a live file
/// handle to duplicate into the child (a non-zero rid).
pub struct RunArgs {
    pub args: Vec<String>,
    pub cwd: Option<String>,
    pub env: Vec<(String, String)>,
    pub stdin: String,
    pub stdout: String,
    pub stderr: String,
    pub stdin_rid: u32,
    pub stdout_rid: u32,
    pub stderr_rid: u32,
}

/// What to wire a child's standard stream to.
#[derive(Clone, Copy, Debug, PartialEq, Eq, Structural)]
pub enum StdioSetting {
    Inherit,
    Piped,
    Null,
    /// Duplicate the open file under this resource handle into the child.
    CloneFile { rid: u32 },
}

/// The setting a policy name maps to.
pub open spec fn stdio_of(s: Seq<char>) -> StdioSetting {
    if s == "inherit"@ {
        StdioSetting::Inherit
    } else if s == "piped"@ {
        StdioSetting::Piped
    } else {
        StdioSetting::Null
    }
}

/// Maps a standard-stream policy name to its setting. Any name outside
/// the three policies is a programmer error, so it is excluded here.
pub fn subprocess_stdio_map(s: &String) -> (r: StdioSetting)
    requires
        s@ == "inherit"@ || s@ == "piped"@ || s@ == "null"@,
    ensures
        r == stdio_of(s@),
{
    if s.eq(&"inherit".to_owned()) {
        StdioSetting::Inherit
    } else if s.eq(&"piped".to_owned()) {
        StdioSetting::Piped
    } else {
        StdioSetting::Null
    }
}

/// The setting chosen for one stream: a supplied handle wins over the
/// named policy.
pub open spec fn stdio_choice(rid: u32, name: Seq<char>) -> StdioSetting {
    if rid > 0 {
        StdioSetting::CloneFile { rid }
    } else {
        stdio_of(name)
    }
}

/// Everything the embedder needs to spawn the child.
#[derive(Debug)]
pub struct SpawnPlan {
    pub argv: Vec<String>,
    pub cwd: Option<String>,
    pub env: Vec<(String, String)>,
    pub stdin: StdioSetting,
    pub stdout: StdioSetting,
    pub stderr: StdioSetting,
}

/// Turns the run op's arguments into a spawn plan, after the permission
/// check that guards every privileged action of this op.
pub fn plan_run(perms: &Permissions, args: RunArgs) -> (r: Result<SpawnPlan, OpError>)
    requires
        args.args@.len() > 0,
        args.stdin_rid == 0 ==> args.stdin@ == "inherit"@ || args.stdin@ == "piped"@
            || args.stdin@ == "null"@,
        args.stdout_rid == 0 ==> args.stdout@ == "inherit"@ || args.stdout@ == "piped"@
            || args.stdout@ == "null"@,
        args.stderr_rid == 0 ==> args.stderr@ == "inherit"@ || args.stderr@ == "piped"@
            || args.stderr@ == "null"@,
    ensures
        r is Ok <==> perms.allow_run,
        r matches Err(e) ==> e.kind == ErrorKind::PermissionDenied,
        r matches Ok(plan) ==> {
            &&& plan.argv == args.args
            &&& plan.cwd == args.cwd
            &&& plan.env == args.env
            &&& plan.stdin == stdio_choice(args.stdin_rid, args.stdin@)
            &&& plan.stdout == stdio_choice(args.stdout_rid, args.stdout@)
            &&& plan.stderr == stdio_choice(args.stderr_rid, args.stderr@)
        },
{
    match perms.check_run() {
        Ok(()) => {},
        Err(e) => {
            return Err(e);
        },
    }
    let stdin = if args.stdin_rid > 0 {
        StdioSetting::CloneFile { rid: args.stdin_rid }
    } else {
        subprocess_stdio_map(&args.stdin)
    };
    let stdout = if args.stdout_rid > 0 {
        StdioSetting::CloneFile { rid: args.stdout_rid }
    } else {
        subprocess_stdio_map(&args.stdout)
    };
    let stderr = if args.stderr_rid > 0 {
        StdioSetting::CloneFile { rid: args.stderr_rid }
    } else {
        subprocess_stdio_map(&args.stderr)
    };
    Ok(SpawnPlan { argv: args.args, cwd: args.cwd, env: args.env, stdin, stdout, stderr })
}

/// The run op's reply: the child's handle and process id, plus a handle
/// for each standard stream that was piped.
pub struct RunResponse {
    pub rid: u32,
    pub pid: i32,
    pub stdin_rid: Option<u32>,
    pub stdout_rid: Option<u32>,
    pub stderr_rid: Option<u32>,
}

/// Registers a spawned child in the table: one handle per piped standard
/// stream, in the order stdin, stdout, stderr, then the child itself.
/// All handles are fresh and consecutive; no live entry moves.
pub fn register_child(
    table: &mut ResourceTable,
    pid: i32,
    has_stdin: bool,
    has_stdout: bool,
    has_stderr: bool,
) -> (r: RunResponse)
    requires
        old(table).wf(),
        old(table).next_rid_spec() <= u32::MAX - 4,
    ensures
        final(table).wf(),
        r.pid == pid,
        ({
            let n0 = old(table).next_rid_spec() as int;
            let n1 = n0 + (if has_stdin {
                1int
            } else {
                0int
            });
            let n2 = n1 + (if has_stdout {
                1int
            } else {
                0int
            });
            let n3 = n2 + (if has_stderr {
                1int
            } else {
                0int
            });
            &&& r.stdin_rid == (if has_stdin {
                Some(n0 as u32)
            } else {
                None::<u32>
            })
            &&& r.stdout_rid == (if has_stdout {
                Some(n1 as u32)
            } else {
                None::<u32>
            })
            &&& r.stderr_rid == (if has_stderr {
                Some(n2 as u32)
            } else {
                None::<u32>
            })
            &&& r.rid == n3 as u32
            &&& final(table).next_rid_spec() == n3 + 1
            &&& final(table).lookup(r.rid) == Some(Resource::Child { pid })
            &&& (r.stdin_rid matches Some(v) ==> final(table).lookup(v) == Some(
                Resource::ChildStdin,
            ))
            &&& (r.stdout_rid matches Some(v) ==> final(table).lookup(v) == Some(
                Resource::ChildStdout,
            ))
            &&& (r.stderr_rid matches Some(v) ==> final(table).lookup(v) == Some(
                Resource::ChildStderr,
            ))
            &&& forall|r2: u32|
                r2 < n0 ==> #[trigger] final(table).lookup(r2) == old(table).lookup(r2)
        }),
{
    let stdin_rid: Option<u32> = if has_stdin {
        Some(table.add(Resource::ChildStdin))
    } else {
        None
    };
    let stdout_rid: Option<u32> = if has_stdout {
        Some(table.add(Resource::ChildStdout))
    } else {
        None
    };
    let stderr_rid: Option<u32> = if has_stderr {
        Some(table.add(Resource::ChildStderr))
    } else {
        None
    };
    let rid = table.add(Resource::Child { pid });
    RunResponse { rid, pid, stdin_rid, stdout_rid, stderr_rid }
}

/// The run-status op's reply. On platforms without signal reporting the
/// exit signal is the sentinel -1 and `got_signal` is false.
#[derive(Clone, Copy, Debug, PartialEq, Eq, Structural)]
pub struct RunStatusResponse {
    pub got_signal: bool,
    pub exit_code: i32,
    pub exit_signal: i32,
}

/// Shapes a child's exit into the run-status reply. A child exits with a
/// code or a terminating signal; a wait that reports neither is a
/// programmer error and excluded here.
pub fn run_status_response(code: Option<i32>, signal: Option<i32>) -> (r: RunStatusResponse)
    requires
        code is Some || signal is Some,
    ensures
        r.got_signal == (signal is Some),
        r.exit_code == (match code {
            Some(c) => c,
            None => -1i32,
        }),
        r.exit_signal == (match signal {
            Some(s) => s,
            None => -1i32,
        }),
{
    let got_signal = signal.is_some();
    let exit_code = match code {
        Some(c) => c,
        None => -1,
    };
    let exit_signal = match signal {
        Some(s) => s,
        None => -1,
    };
    RunStatusResponse { got_signal, exit_code, exit_signal }
}

/// The run-status op's gate: run permission first, then the handle must
/// name a live child; a negative or unknown handle, or one of another
/// kind (as after the guest closes the child to cancel the wait), is
/// bad-resource. The wait itself suspends on the event loop; this
/// returns the checked handle the waiter uses.
pub fn op_run_status(perms: &Permissions, table: &ResourceTable, rid: i32) -> (r: Result<
    u32,
    OpError,
>)
    ensures
        r is Ok <==> (perms.allow_run && rid >= 0 && (table.lookup(rid as u32) matches Some(res)
            && res is Child)),
        r matches Ok(v) ==> v == rid,
        !perms.allow_run ==> (r matches Err(e) && e.kind == ErrorKind::PermissionDenied),
        perms.allow_run && r is Err ==> (r matches Err(e) && e.kind == ErrorKind::BadResource),
{
    match perms.check_run() {
        Ok(()) => {},
        Err(e) => {
            return Err(e);
        },
    }
    if rid < 0 {
        return Err(OpError::bad_resource());
    }
    match table.get_child(rid as u32) {
        Ok(_) => Ok(rid as u32),
        Err(e) => Err(e),
    }
}

/// Whether `rid` names an open disk file that the run op may duplicate
/// into a child's standard stream; any other handle is bad-resource.
pub fn clone_file_check(table: &ResourceTable, rid: u32) -> (r: Result<(), OpError>)
    ensures
        r is Ok <==> table.lookup(rid) == Some(Resource::FsFile),
        r matches Err(e) ==> e.kind == ErrorKind::BadResource,
{
    match table.get(rid) {
        Some(res) => {
            match res {
                Resource::FsFile => Ok(()),
                _ => Err(OpError::bad_resource()),
            }
        },
        None => Err(OpError::bad_resource()),
    }
}

/// The kill op: run permission first, then signal delivery through the
/// platform signal interface, whose outcome the op mirrors: a number
/// naming no signal always fails, and with permission granted every
/// failure is the delivery's own.
pub fn op_kill(perms: &Permissions, pid: i32, signo: i32) -> (r: Result<(), OpError>)
    ensures
        !perms.allow_run ==> (r matches Err(e) && e.kind == ErrorKind::PermissionDenied),
        perms.allow_run && r is Err ==> (r matches Err(e) && e.kind == ErrorKind::Io),
        perms.allow_run && !is_signal(signo as int) ==> r is Err,
        r is Ok ==> is_signal(signo as int),
{
    match perms.check_run() {
        Ok(()) => {},
        Err(e) => {
            return Err(e);
        },
    }
    crate::signal::kill(pid, signo)
}

} // verus!
