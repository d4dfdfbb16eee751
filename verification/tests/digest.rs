use std::collections::hash_map::DefaultHasher;
use std::hash::Hasher;

use endpoint_sec::EventExec;
use endpoint_sec::ExecRecord;
use endpoint_sec::Fd;
use endpoint_sec::FdRecord;
use endpoint_sec::FileRecord;
use endpoint_sec::ProcessRecord;
use endpoint_sec::PROX_FDTYPE_PIPE;

fn plain_file(path: &'static [u8]) -> FileRecord<'static> {
    FileRecord { path, path_truncated: false }
}

fn shell_record() -> ExecRecord<'static> {
    ExecRecord {
        target: ProcessRecord { pid: 77, executable: plain_file(b"/bin/sh") },
        dyld_exec_path: b"/bin/sh",
        script: Some(plain_file(b"/tmp/a.sh")),
        cwd: plain_file(b"/"),
        last_fd: 2,
        image_cputype: 7,
        image_cpusubtype: 3,
        args: vec![b"sh", b"-c"],
        envs: vec![b"A=1"],
        fds: vec![FdRecord { fd: 0, fdtype: PROX_FDTYPE_PIPE, pipe_id: 5 }],
    }
}

fn number(state: &mut DefaultHasher, x: u64) {
    state.write(&x.to_le_bytes());
}

fn signed(state: &mut DefaultHasher, x: i32) {
    number(state, (x as i64 + 0x8000_0000) as u64);
}

fn string(state: &mut DefaultHasher, bytes: &[u8]) {
    number(state, bytes.len() as u64);
    state.write(bytes);
}

fn fd_digest(record: &FdRecord) -> u64 {
    let mut state = DefaultHasher::new();
    Fd::new(record).hash_into(&mut state);
    state.finish()
}

#[test]
fn fd_feed_is_number_type_and_optional_pipe_id() {
    let pipe = FdRecord { fd: -1, fdtype: PROX_FDTYPE_PIPE, pipe_id: 0xdead_beef };
    let mut expected = DefaultHasher::new();
    signed(&mut expected, -1);
    number(&mut expected, 6);
    number(&mut expected, 1);
    number(&mut expected, 0xdead_beef);
    assert_eq!(fd_digest(&pipe), expected.finish());

    let file = FdRecord { fd: 3, fdtype: 1, pipe_id: 0xdead_beef };
    let mut expected = DefaultHasher::new();
    signed(&mut expected, 3);
    number(&mut expected, 1);
    number(&mut expected, 0);
    assert_eq!(fd_digest(&file), expected.finish());
}

#[test]
fn fd_feed_goes_after_what_was_fed_before() {
    let record = FdRecord { fd: 3, fdtype: 1, pipe_id: 0 };
    let mut state = DefaultHasher::new();
    state.write(b"before");
    Fd::new(&record).hash_into(&mut state);
    let mut expected = DefaultHasher::new();
    expected.write(b"before");
    signed(&mut expected, 3);
    number(&mut expected, 1);
    number(&mut expected, 0);
    assert_eq!(state.finish(), expected.finish());
}

#[test]
fn equal_fds_hash_alike() {
    let a = FdRecord { fd: 3, fdtype: 1, pipe_id: 10 };
    let b = FdRecord { fd: 3, fdtype: 1, pipe_id: 20 };
    assert_eq!(Fd::new(&a), Fd::new(&b));
    assert_eq!(fd_digest(&a), fd_digest(&b));
    let c = FdRecord { fd: 3, fdtype: PROX_FDTYPE_PIPE, pipe_id: 10 };
    let d = FdRecord { fd: 3, fdtype: PROX_FDTYPE_PIPE, pipe_id: 20 };
    assert_ne!(fd_digest(&c), fd_digest(&d));
    assert_ne!(fd_digest(&a), fd_digest(&c));
}

#[test]
fn event_feed_at_version_1() {
    let record = shell_record();
    let event = EventExec::new(&record, 1).unwrap();
    let mut expected = DefaultHasher::new();
    number(&mut expected, 1);
    number(&mut expected, 1);
    signed(&mut expected, 77);
    string(&mut expected, b"/bin/sh");
    number(&mut expected, 0);
    for _ in 0..6 {
        number(&mut expected, 0);
    }
    number(&mut expected, 2);
    string(&mut expected, b"sh");
    string(&mut expected, b"-c");
    number(&mut expected, 1);
    string(&mut expected, b"A=1");
    number(&mut expected, 1);
    signed(&mut expected, 0);
    number(&mut expected, 6);
    number(&mut expected, 1);
    number(&mut expected, 5);
    assert_eq!(event.digest(), expected.finish());
}

#[test]
fn event_feed_at_version_7() {
    let record = shell_record();
    let event = EventExec::new(&record, 7).unwrap();
    let mut expected = DefaultHasher::new();
    number(&mut expected, 7);
    number(&mut expected, 7);
    signed(&mut expected, 77);
    string(&mut expected, b"/bin/sh");
    number(&mut expected, 0);
    number(&mut expected, 1);
    string(&mut expected, b"/bin/sh");
    number(&mut expected, 1);
    string(&mut expected, b"/tmp/a.sh");
    number(&mut expected, 0);
    number(&mut expected, 1);
    string(&mut expected, b"/");
    number(&mut expected, 0);
    number(&mut expected, 1);
    signed(&mut expected, 2);
    number(&mut expected, 1);
    signed(&mut expected, 7);
    number(&mut expected, 1);
    signed(&mut expected, 3);
    number(&mut expected, 2);
    string(&mut expected, b"sh");
    string(&mut expected, b"-c");
    number(&mut expected, 1);
    string(&mut expected, b"A=1");
    number(&mut expected, 1);
    signed(&mut expected, 0);
    number(&mut expected, 6);
    number(&mut expected, 1);
    number(&mut expected, 5);
    assert_eq!(event.digest(), expected.finish());
    let mut state = DefaultHasher::new();
    event.hash_into(&mut state);
    assert_eq!(state.finish(), expected.finish());
}

#[test]
fn events_of_identical_data_hash_alike() {
    let a = shell_record();
    let b = shell_record();
    for version in 0..9u32 {
        let left = EventExec::new(&a, version).unwrap();
        let right = EventExec::new(&b, version).unwrap();
        assert!(left == right);
        assert_eq!(left.digest(), right.digest());
        assert_eq!(left.digest(), left.digest());
    }
}

#[test]
fn equal_events_hash_alike_whatever_absent_fields_hold() {
    let a = shell_record();
    let mut b = shell_record();
    b.cwd = plain_file(b"/elsewhere");
    b.last_fd = 1000;
    b.image_cputype = 1;
    b.image_cpusubtype = 1;
    b.dyld_exec_path = b"garbage";
    let left = EventExec::new(&a, 2).unwrap();
    let right = EventExec::new(&b, 2).unwrap();
    assert!(left == right);
    assert_eq!(left.digest(), right.digest());
    let left = EventExec::new(&a, 7).unwrap();
    let right = EventExec::new(&b, 7).unwrap();
    assert!(left != right);
    assert_ne!(left.digest(), right.digest());
}

#[test]
fn digest_tells_versions_and_lists_apart() {
    let a = shell_record();
    let at_3 = EventExec::new(&a, 3).unwrap().digest();
    let at_4 = EventExec::new(&a, 4).unwrap().digest();
    assert_ne!(at_3, at_4);
    let mut b = shell_record();
    b.args = vec![b"sh-c"];
    assert_ne!(EventExec::new(&a, 1).unwrap().digest(), EventExec::new(&b, 1).unwrap().digest());
    let mut c = shell_record();
    c.envs = vec![b"A=", b"1"];
    assert_ne!(EventExec::new(&a, 1).unwrap().digest(), EventExec::new(&c, 1).unwrap().digest());
}
