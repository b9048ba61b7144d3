use op_bus::errors::ErrorKind;
use op_bus::resources::Resource;
use op_bus::resources::ResourceTable;

#[test]
fn wrong_kind_is_bad_resource_not_a_panic() {
    let mut t = ResourceTable::new();
    let rid = t.add(Resource::TcpStream);

    // The handle is live, but it is not a child process.
    let err = t.get_child(rid).unwrap_err();
    assert_eq!(err.kind, ErrorKind::BadResource);

    // The other direction: a child is not a stream.
    let child = t.add(Resource::Child { pid: 4321 });
    let err = t.get_stream(child).unwrap_err();
    assert_eq!(err.kind, ErrorKind::BadResource);

    // The right kind goes through.
    assert!(t.get_stream(rid).is_ok());
    assert_eq!(t.get_child(child).unwrap(), 4321);
}

#[test]
fn remove_unknown_returns_none_and_get_stays_none() {
    let mut t = ResourceTable::new();
    assert!(t.remove(42).is_none());
    assert!(t.get(42).is_none());

    let rid = t.add(Resource::FsFile);
    assert_eq!(t.remove(rid), Some(Resource::FsFile));
    assert!(t.get(rid).is_none());
    assert!(t.remove(rid).is_none());
}

#[test]
fn handles_strictly_increase() {
    let mut t = ResourceTable::new();
    let a = t.add(Resource::Stdin);
    let b = t.add(Resource::Stdout);
    let c = t.add(Resource::Stderr);
    assert!(a < b && b < c);

    // Removing never frees a handle for reuse.
    assert!(t.remove(a).is_some());
    let d = t.add(Resource::TcpStream);
    assert!(d > c);
}

#[test]
fn entries_snapshot_tags() {
    let mut t = ResourceTable::new();
    let a = t.add(Resource::Stdin);
    let b = t.add(Resource::HttpBody);
    let c = t.add(Resource::Child { pid: 7 });

    let entries = t.entries();
    assert_eq!(entries.len(), 3);
    assert_eq!(entries[0], (a, "stdin".to_string()));
    assert_eq!(entries[1], (b, "httpBody".to_string()));
    assert_eq!(entries[2], (c, "child".to_string()));
    assert_eq!(t.len(), 3);
}

#[test]
fn readable_and_writable_by_variant() {
    assert!(Resource::Stdin.readable());
    assert!(!Resource::Stdin.writable());
    assert!(Resource::Stdout.writable());
    assert!(!Resource::Stdout.readable());
    assert!(Resource::FsFile.readable() && Resource::FsFile.writable());
    assert!(Resource::HttpBody.readable() && !Resource::HttpBody.writable());
    assert!(Resource::ChildStdin.writable() && !Resource::ChildStdin.readable());
    let child = Resource::Child { pid: 1 };
    assert!(!child.readable() && !child.writable());
    assert!(!child.is_stream());
}
