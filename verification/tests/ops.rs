use op_bus::compilers::JsCompiler;
use op_bus::errors::ErrorKind;
use op_bus::fetch::fetch_response;
use op_bus::fetch::op_fetch_begin;
use op_bus::fetch::FetchArgs;
use op_bus::io::error_code;
use op_bus::io::get_stdio;
use op_bus::io::minimal_response;
use op_bus::io::op_read;
use op_bus::io::op_write;
use op_bus::io::poll_close_check;
use op_bus::io::poll_read_check;
use op_bus::io::poll_write_check;
use op_bus::io::IoState;
use op_bus::errors::OpError;
use op_bus::permissions::Permissions;
use op_bus::process::clone_file_check;
use op_bus::process::op_kill;
use op_bus::process::op_run_status;
use op_bus::process::plan_run;
use op_bus::process::register_child;
use op_bus::process::run_status_response;
use op_bus::process::subprocess_stdio_map;
use op_bus::process::RunArgs;
use op_bus::process::StdioSetting;
use op_bus::random::op_get_random_values;
use op_bus::random::seed_rng;
use op_bus::resources::Resource;
use op_bus::resources::ResourceTable;
use op_bus::signal::kill;
use op_bus::source_maps::apply_source_map_reply;
use op_bus::source_maps::format_error_reply;
use op_bus::timers::GlobalTimer;

#[test]
fn read_without_buffer_is_no_buffer_error() {
    let err = op_read(3, None).unwrap_err();
    assert_eq!(err.kind, ErrorKind::NoBuffer);

    let err = op_write(3, None).unwrap_err();
    assert_eq!(err.kind, ErrorKind::NoBuffer);

    let fut = op_read(3, Some(16)).unwrap();
    assert_eq!(fut.rid, 3);
    assert_eq!(fut.buf_len, 16);
    assert_eq!(fut.io_state, IoState::Pending);

    let mut fut = op_write(4, Some(16)).unwrap();
    assert_eq!(fut.rid, 4);
    assert_eq!(fut.complete(16), 16);
    assert_eq!(fut.io_state, IoState::Done);
}

#[test]
fn negative_handles_are_bad_resource() {
    assert_eq!(op_read(-1, Some(4)).unwrap_err().kind, ErrorKind::BadResource);
    assert_eq!(op_write(-1, Some(4)).unwrap_err().kind, ErrorKind::BadResource);
    // The missing buffer is reported first.
    assert_eq!(op_read(-1, None).unwrap_err().kind, ErrorKind::NoBuffer);
}

#[test]
fn poll_checks_enforce_stream_direction() {
    let mut t = ResourceTable::new();
    let (stdin, stdout, _stderr) = get_stdio();
    let in_rid = t.add(stdin);
    let out_rid = t.add(stdout);

    assert!(poll_read_check(&t, in_rid).is_ok());
    assert_eq!(poll_read_check(&t, out_rid).unwrap_err().kind, ErrorKind::BadResource);

    assert!(poll_write_check(&t, out_rid).is_ok());
    assert_eq!(poll_write_check(&t, in_rid).unwrap_err().kind, ErrorKind::BadResource);

    // Closing follows the writer capability.
    assert!(poll_close_check(&t, out_rid).is_ok());
    assert_eq!(poll_close_check(&t, in_rid).unwrap_err().kind, ErrorKind::BadResource);

    assert_eq!(poll_read_check(&t, 999).unwrap_err().kind, ErrorKind::BadResource);
}

#[test]
fn only_disk_files_can_back_a_child_stream() {
    let mut t = ResourceTable::new();
    let file = t.add(Resource::FsFile);
    let sock = t.add(Resource::TcpStream);

    assert!(clone_file_check(&t, file).is_ok());
    assert_eq!(clone_file_check(&t, sock).unwrap_err().kind, ErrorKind::BadResource);
    assert_eq!(clone_file_check(&t, 999).unwrap_err().kind, ErrorKind::BadResource);
}

#[test]
fn minimal_response_encodes_errors_negative() {
    let ok: Result<i32, OpError> = Ok(12);
    let rec = minimal_response(9, &ok);
    assert_eq!(rec.promise_id, 9);
    assert_eq!(rec.result, 12);

    let err: Result<i32, OpError> = Err(OpError::bad_resource());
    let rec = minimal_response(9, &err);
    assert_eq!(rec.result, -1);
    assert!(rec.result < 0);

    assert_eq!(error_code(ErrorKind::NoBuffer), -2);
    assert_eq!(error_code(ErrorKind::Overflow), -6);
}

#[test]
fn stdio_map_matches_policy_names() {
    assert_eq!(subprocess_stdio_map(&"inherit".to_string()), StdioSetting::Inherit);
    assert_eq!(subprocess_stdio_map(&"piped".to_string()), StdioSetting::Piped);
    assert_eq!(subprocess_stdio_map(&"null".to_string()), StdioSetting::Null);
}

fn run_args() -> RunArgs {
    RunArgs {
        args: vec!["true".to_string()],
        cwd: None,
        env: Vec::new(),
        stdin: "null".to_string(),
        stdout: "piped".to_string(),
        stderr: "inherit".to_string(),
        stdin_rid: 0,
        stdout_rid: 0,
        stderr_rid: 0,
    }
}

#[test]
fn plan_run_needs_run_permission() {
    let err = plan_run(&Permissions::deny_all(), run_args()).unwrap_err();
    assert_eq!(err.kind, ErrorKind::PermissionDenied);

    let plan = plan_run(&Permissions::allow_all(), run_args()).unwrap();
    assert_eq!(plan.argv, vec!["true".to_string()]);
    assert_eq!(plan.stdin, StdioSetting::Null);
    assert_eq!(plan.stdout, StdioSetting::Piped);
    assert_eq!(plan.stderr, StdioSetting::Inherit);

    let mut args = run_args();
    args.stdout_rid = 5;
    let plan = plan_run(&Permissions::allow_all(), args).unwrap();
    assert_eq!(plan.stdout, StdioSetting::CloneFile { rid: 5 });
}

#[test]
fn register_child_allocates_consecutive_fresh_handles() {
    let mut t = ResourceTable::new();
    let resp = register_child(&mut t, 1234, false, true, false);
    assert_eq!(resp.pid, 1234);
    assert_eq!(resp.stdin_rid, None);
    assert_eq!(resp.stdout_rid, Some(1));
    assert_eq!(resp.stderr_rid, None);
    assert_eq!(resp.rid, 2);

    assert_eq!(t.get_child(resp.rid).unwrap(), 1234);
    assert_eq!(t.get(1), Some(&Resource::ChildStdout));

    let resp2 = register_child(&mut t, 99, true, true, true);
    assert_eq!(resp2.stdin_rid, Some(3));
    assert_eq!(resp2.stdout_rid, Some(4));
    assert_eq!(resp2.stderr_rid, Some(5));
    assert_eq!(resp2.rid, 6);
}

#[test]
fn run_status_reply_for_clean_exit() {
    // A child that exits 0 with no terminating signal.
    let r = run_status_response(Some(0), None);
    assert_eq!(r.got_signal, false);
    assert_eq!(r.exit_code, 0);
    assert_eq!(r.exit_signal, -1);

    let r = run_status_response(None, Some(9));
    assert_eq!(r.got_signal, true);
    assert_eq!(r.exit_code, -1);
    assert_eq!(r.exit_signal, 9);
}

#[test]
fn run_status_gate_checks_permission_then_handle() {
    let mut t = ResourceTable::new();
    let err = op_run_status(&Permissions::deny_all(), &t, 1).unwrap_err();
    assert_eq!(err.kind, ErrorKind::PermissionDenied);

    let err = op_run_status(&Permissions::allow_all(), &t, 1).unwrap_err();
    assert_eq!(err.kind, ErrorKind::BadResource);

    let err = op_run_status(&Permissions::allow_all(), &t, -5).unwrap_err();
    assert_eq!(err.kind, ErrorKind::BadResource);

    let rid = t.add(Resource::Child { pid: 77 });
    assert_eq!(op_run_status(&Permissions::allow_all(), &t, rid as i32).unwrap(), rid);
}

#[test]
fn kill_requires_permission_and_a_real_signal() {
    let err = op_kill(&Permissions::deny_all(), 1, 15).unwrap_err();
    assert_eq!(err.kind, ErrorKind::PermissionDenied);

    // Signal number 0 names no deliverable signal here.
    let err = op_kill(&Permissions::allow_all(), 1, 0).unwrap_err();
    assert_eq!(err.kind, ErrorKind::Io);

    let err = kill(1, 99999).unwrap_err();
    assert_eq!(err.kind, ErrorKind::Io);
}

#[test]
fn seeded_rng_is_deterministic_and_streams() {
    let rng = seed_rng(1234);
    assert_eq!(rng.seed(), 1234);
    assert_eq!(rng.position(), 0);

    let mut a1 = vec![0u8; 32];
    let mut a2 = vec![0u8; 32];
    let rng = op_get_random_values(Some(rng), &mut a1).unwrap().unwrap();
    assert_eq!(rng.position(), 8);
    let rng = op_get_random_values(Some(rng), &mut a2).unwrap().unwrap();
    assert_eq!(rng.position(), 16);

    let mut b1 = vec![0u8; 32];
    let mut b2 = vec![0u8; 32];
    let rng2 = seed_rng(1234);
    let rng2 = op_get_random_values(Some(rng2), &mut b1).unwrap().unwrap();
    let _ = op_get_random_values(Some(rng2), &mut b2).unwrap();

    // Same seed, same call sequence: both buffers repeat exactly, and the
    // second call continues the stream rather than restarting it.
    assert_eq!(a1, b1);
    assert_eq!(a2, b2);
    assert_ne!(a1, a2);

    // Fills consume the keystream in 32-bit words: word-aligned fills
    // hand out consecutive segments, so together they equal one fill of
    // double the size.
    let mut whole = vec![0u8; 64];
    let mut rng3 = seed_rng(1234);
    rng3.fill(&mut whole);
    assert_eq!(rng3.position(), 16);
    assert_eq!(&whole[..32], &a1[..]);
    assert_eq!(&whole[32..], &a2[..]);

    // A fill whose length is no multiple of 4 consumes its tail word
    // whole: the next fill starts at the following word boundary.
    let mut head = vec![0u8; 2];
    let mut next = vec![0u8; 2];
    let mut rng5 = seed_rng(1234);
    rng5.fill(&mut head);
    assert_eq!(rng5.position(), 1);
    rng5.fill(&mut next);
    assert_eq!(rng5.position(), 2);
    assert_eq!(&head[..], &whole[0..2]);
    assert_eq!(&next[..], &whole[4..6]);

    // Without a configured seed the platform entropy source is used.
    let mut c = vec![0u8; 32];
    let rng4 = op_get_random_values(None, &mut c).unwrap();
    assert!(rng4.is_none());
    assert_eq!(c.len(), 32);
}

#[test]
fn rearming_timer_cancels_the_earlier_deadline() {
    let mut t = GlobalTimer::new();
    assert_eq!(t.deadline(), None);

    assert_eq!(t.new_timeout(50), false);
    assert_eq!(t.deadline(), Some(50));

    // Re-arming while armed is cancel-then-arm: the first wait completes
    // as a cancellation, the later deadline is the only one in flight.
    assert_eq!(t.new_timeout(1000), true);
    assert_eq!(t.deadline(), Some(1000));

    t.fire();
    assert_eq!(t.deadline(), None);

    t.cancel();
    t.cancel();
    assert_eq!(t.deadline(), None);
}

#[test]
fn denied_fetch_is_a_permission_error_and_makes_no_resource() {
    let mut t = ResourceTable::new();
    let args = FetchArgs {
        method: None,
        url: "http://example.com/data".to_string(),
        headers: Vec::new(),
    };
    let err = op_fetch_begin(&Permissions::deny_all(), args).unwrap_err();
    assert_eq!(err.kind, ErrorKind::PermissionDenied);
    assert_eq!(t.len(), 0);
    assert!(t.remove(1).is_none());
}

#[test]
fn fetch_plan_carries_request_through_allowlist() {
    let perms = Permissions {
        allow_run: false,
        allow_net: false,
        net_allowlist: vec!["example.com".to_string()],
        allow_read: false,
        allow_write: false,
    };
    let args = FetchArgs {
        method: Some("POST".to_string()),
        url: "http://example.com/data".to_string(),
        headers: vec![("accept".to_string(), "text/plain".to_string())],
    };
    let plan = op_fetch_begin(&perms, args).unwrap();
    assert_eq!(plan.method_name, Some("POST".to_string()));
    assert_eq!(plan.url, "http://example.com/data");
    assert_eq!(plan.host, Some("example.com".to_string()));
    assert_eq!(plan.headers.len(), 1);

    let args = FetchArgs {
        method: None,
        url: "http://other.example/".to_string(),
        headers: Vec::new(),
    };
    let err = op_fetch_begin(&perms, args).unwrap_err();
    assert_eq!(err.kind, ErrorKind::PermissionDenied);
}

#[test]
fn malformed_fetch_requests_are_parse_errors() {
    let perms = Permissions::allow_all();
    let args = FetchArgs {
        method: Some("".to_string()),
        url: "http://example.com/".to_string(),
        headers: Vec::new(),
    };
    assert_eq!(op_fetch_begin(&perms, args).unwrap_err().kind, ErrorKind::Parse);

    let args = FetchArgs {
        method: None,
        url: "not a url".to_string(),
        headers: Vec::new(),
    };
    assert_eq!(op_fetch_begin(&perms, args).unwrap_err().kind, ErrorKind::Parse);
}

#[test]
fn fetch_response_stores_the_body_stream() {
    let mut t = ResourceTable::new();
    let resp = fetch_response(
        &mut t,
        200,
        "OK".to_string(),
        vec![("content-type".to_string(), "text/plain".to_string())],
    );
    assert_eq!(resp.body_rid, 1);
    assert_eq!(resp.status, 200);
    assert_eq!(resp.status_text, "OK");
    assert_eq!(t.get(resp.body_rid), Some(&Resource::HttpBody));
    assert!(t.get_stream(resp.body_rid).is_ok());
}

#[test]
fn net_permission_follows_flag_and_allowlist() {
    let perms = Permissions::allow_all();
    assert!(perms.check_net_url(&Some("anywhere.example".to_string())).is_ok());
    assert!(perms.check_run().is_ok());
    assert!(perms.check_read("/tmp/x").is_ok());
    assert!(perms.check_write("/tmp/x").is_ok());

    let deny = Permissions::deny_all();
    assert_eq!(
        deny.check_net_url(&Some("example.com".to_string())).unwrap_err().kind,
        ErrorKind::PermissionDenied
    );
    assert_eq!(deny.check_net_url(&None).unwrap_err().kind, ErrorKind::PermissionDenied);
    assert_eq!(deny.check_run().unwrap_err().kind, ErrorKind::PermissionDenied);
    assert_eq!(deny.check_read("/tmp/x").unwrap_err().kind, ErrorKind::PermissionDenied);
    assert_eq!(deny.check_write("/tmp/x").unwrap_err().kind, ErrorKind::PermissionDenied);
}

#[test]
fn error_ops_pass_through_without_a_resolver() {
    let (f, l, c) = apply_source_map_reply("gen.js".to_string(), 10, 4, None);
    assert_eq!((f.as_str(), l, c), ("gen.js", 10, 4));

    let (f, l, c) = apply_source_map_reply(
        "gen.js".to_string(),
        10,
        4,
        Some(("orig.ts".to_string(), 3, 1)),
    );
    assert_eq!((f.as_str(), l, c), ("orig.ts", 3, 1));

    assert_eq!(format_error_reply("boom".to_string(), None), "boom");
    assert_eq!(
        format_error_reply("boom".to_string(), Some("Boom at main".to_string())),
        "Boom at main"
    );
}

#[test]
fn js_compiler_passes_sources_through() {
    let compiler = JsCompiler::new();
    let module = compiler.compile(
        "file:///main.js".to_string(),
        "console.log(1)".to_string(),
    );
    assert_eq!(module.name, "file:///main.js");
    assert_eq!(module.code, "console.log(1)");
}
