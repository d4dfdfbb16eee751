use endpoint_sec::EventExec;
use endpoint_sec::ExecRecord;
use endpoint_sec::Fd;
use endpoint_sec::FdRecord;
use endpoint_sec::Field;
use endpoint_sec::File;
use endpoint_sec::FileRecord;
use endpoint_sec::Process;
use endpoint_sec::ProcessRecord;
use endpoint_sec::PROX_FDTYPE_PIPE;

fn file(path: &'static str) -> FileRecord<'static> {
    FileRecord { path: path.as_bytes(), path_truncated: false }
}

fn strings(list: &[&'static str]) -> Vec<&'static [u8]> {
    list.iter().map(|s| s.as_bytes()).collect()
}

fn ls_record() -> ExecRecord<'static> {
    ExecRecord {
        target: ProcessRecord { pid: 4242, executable: file("/bin/ls") },
        dyld_exec_path: b"/bin/ls",
        script: Some(file("/tmp/run.sh")),
        cwd: file("/home/user"),
        last_fd: 5,
        image_cputype: 0x0100_000c,
        image_cpusubtype: 2,
        args: strings(&["/bin/ls", "-la", "/tmp"]),
        envs: strings(&["PATH=/usr/bin"]),
        fds: vec![
            FdRecord { fd: 0, fdtype: 1, pipe_id: 0 },
            FdRecord { fd: 1, fdtype: PROX_FDTYPE_PIPE, pipe_id: 77 },
            FdRecord { fd: 2, fdtype: PROX_FDTYPE_PIPE, pipe_id: 0 },
            FdRecord { fd: 5, fdtype: 2, pipe_id: 99 },
        ],
    }
}

fn bytes(s: &str) -> Option<&[u8]> {
    Some(s.as_bytes())
}

#[test]
fn exec_version_4_end_to_end() {
    let record = ls_record();
    let event = EventExec::new(&record, 4).unwrap();
    assert_eq!(event.version(), 4);
    assert_eq!(event.arg_count(), 3);
    assert_eq!(event.env_count(), 1);
    assert_eq!(event.last_fd(), Some(5));
    assert!(event.cwd().is_some());
    assert_eq!(event.dyld_exec_path(), None);
    let expected: Vec<&[u8]> = vec![b"/bin/ls", b"-la", b"/tmp"];
    assert_eq!(event.args().collect(), expected);
    assert_eq!(event.all_args(), expected);
    assert_eq!(event.arg(1), bytes("-la"));
    assert_eq!(event.arg(5), None);
    let environment: Vec<&[u8]> = vec![b"PATH=/usr/bin"];
    assert_eq!(event.envs().collect(), environment);
    assert_eq!(event.env(0), bytes("PATH=/usr/bin"));
    assert_eq!(event.env(1), None);
}

#[test]
fn arg_is_the_element_that_args_yields_at_that_step() {
    let record = ls_record();
    let event = EventExec::new(&record, 1).unwrap();
    let mut args = event.args();
    for index in 0..event.arg_count() {
        let yielded = args.next();
        assert!(yielded.is_some());
        assert_eq!(event.arg(index), yielded);
    }
    assert_eq!(args.next(), None);
    assert_eq!(event.arg(event.arg_count()), None);
    assert_eq!(event.arg(u32::MAX), None);
}

#[test]
fn env_and_fd_are_the_elements_that_their_iterators_yield() {
    let record = ls_record();
    let event = EventExec::new(&record, 7).unwrap();
    let mut envs = event.envs();
    for index in 0..event.env_count() {
        assert_eq!(event.env(index), envs.next());
    }
    assert_eq!(event.env(event.env_count()), None);
    let mut fds = event.fds();
    for index in 0..event.fd_count() {
        assert_eq!(event.fd(index), fds.next());
    }
    assert_eq!(fds.next(), None);
    assert_eq!(event.fd(event.fd_count()), None);
    assert_eq!(event.fd(u32::MAX), None);
}

#[test]
fn count_is_the_argument_count_less_what_was_consumed() {
    let record = ls_record();
    let event = EventExec::new(&record, 1).unwrap();
    assert_eq!(event.args().count(), 3);
    for consumed in 0..6usize {
        let mut args = event.args();
        for _ in 0..consumed {
            args.next();
        }
        let left = 3usize.saturating_sub(consumed);
        assert_eq!(args.len(), left);
        assert_eq!(args.size_hint(), (left, Some(left)));
        assert_eq!(args.count(), left);
    }
}

#[test]
fn exhausted_iterators_stay_exhausted() {
    let record = ls_record();
    let event = EventExec::new(&record, 1).unwrap();
    let mut args = event.args();
    while args.next().is_some() {}
    for _ in 0..4 {
        assert_eq!(args.next(), None);
        assert_eq!(args.len(), 0);
    }
    let mut envs = event.envs();
    assert!(envs.next().is_some());
    assert_eq!(envs.next(), None);
    assert_eq!(envs.next(), None);
    let mut fds = event.fds();
    while fds.next().is_some() {}
    assert_eq!(fds.next(), None);
    assert_eq!(fds.next(), None);
    assert!(fds.collect().is_empty());
}

#[test]
fn each_call_gives_a_fresh_iterator() {
    let record = ls_record();
    let event = EventExec::new(&record, 1).unwrap();
    let mut first = event.args();
    first.next();
    first.next();
    let mut second = event.args();
    assert_eq!(second.next(), bytes("/bin/ls"));
    assert_eq!(first.next(), bytes("/tmp"));
    assert_eq!(event.arg_count(), 3);
}

#[test]
fn version_2_has_the_script_and_nothing_later() {
    let record = ls_record();
    let event = EventExec::new(&record, 2).unwrap();
    let script = event.script().unwrap();
    assert_eq!(script.path(), b"/tmp/run.sh");
    assert!(!script.path_truncated());
    assert_eq!(event.cwd(), None);
    assert_eq!(event.last_fd(), None);
    assert_eq!(event.dyld_exec_path(), None);
    assert_eq!(event.image_cputype(), None);
    assert_eq!(event.image_cpusubtype(), None);
}

#[test]
fn version_7_has_every_field() {
    let record = ls_record();
    let event = EventExec::new(&record, 7).unwrap();
    assert_eq!(event.script().unwrap().path(), b"/tmp/run.sh");
    assert_eq!(event.cwd().unwrap().path(), b"/home/user");
    assert_eq!(event.last_fd(), Some(5));
    assert_eq!(event.dyld_exec_path(), bytes("/bin/ls"));
    assert_eq!(event.image_cputype(), Some(0x0100_000c));
    assert_eq!(event.image_cpusubtype(), Some(2));
}

#[test]
fn each_field_appears_at_its_version() {
    let record = ls_record();
    for version in 0..10u32 {
        let event = EventExec::new(&record, version).unwrap();
        assert_eq!(event.script().is_some(), version >= 2);
        assert_eq!(event.cwd().is_some(), version >= 3);
        assert_eq!(event.last_fd().is_some(), version >= 4);
        assert_eq!(event.image_cputype().is_some(), version >= 6);
        assert_eq!(event.image_cpusubtype().is_some(), version >= 6);
        assert_eq!(event.dyld_exec_path().is_some(), version >= 7);
        assert_eq!(event.arg_count(), 3);
        assert_eq!(event.env_count(), 1);
        assert_eq!(event.fd_count(), 4);
    }
    let event = EventExec::new(&record, u32::MAX).unwrap();
    assert!(event.dyld_exec_path().is_some());
}

#[test]
fn a_record_without_script_has_none_at_any_version() {
    let mut record = ls_record();
    record.script = None;
    for version in 0..10u32 {
        let event = EventExec::new(&record, version).unwrap();
        assert_eq!(event.script(), None);
    }
}

#[test]
fn an_absent_field_is_not_a_zero() {
    let mut record = ls_record();
    record.last_fd = 0;
    record.image_cputype = 0;
    assert_eq!(EventExec::new(&record, 3).unwrap().last_fd(), None);
    assert_eq!(EventExec::new(&record, 4).unwrap().last_fd(), Some(0));
    assert_eq!(EventExec::new(&record, 5).unwrap().image_cputype(), None);
    assert_eq!(EventExec::new(&record, 6).unwrap().image_cputype(), Some(0));
}

#[test]
fn field_table() {
    assert_eq!(Field::Script.min_version(), 2);
    assert_eq!(Field::Cwd.min_version(), 3);
    assert_eq!(Field::LastFd.min_version(), 4);
    assert_eq!(Field::ImageCputype.min_version(), 6);
    assert_eq!(Field::ImageCpusubtype.min_version(), 6);
    assert_eq!(Field::DyldExecPath.min_version(), 7);
    assert!(!Field::Cwd.present_in(2));
    assert!(Field::Cwd.present_in(3));
    assert!(Field::Cwd.present_in(4));
    assert!(!Field::DyldExecPath.present_in(6));
    assert!(Field::DyldExecPath.present_in(7));
    assert!(!Field::Script.present_in(0));
}

#[test]
fn target_carries_the_message_version() {
    let record = ls_record();
    let event = EventExec::new(&record, 5).unwrap();
    let target = event.target();
    assert_eq!(target.version(), 5);
    assert_eq!(target.pid(), 4242);
    assert_eq!(target.executable().path(), b"/bin/ls");
    assert_eq!(target, Process::new(&record.target, 5));
    assert_ne!(target, Process::new(&record.target, 6));
}

#[test]
fn pipe_id_is_present_for_pipes_only() {
    let record = ls_record();
    let event = EventExec::new(&record, 4).unwrap();
    let fds = event.fds().collect();
    assert_eq!(fds.len(), 4);
    assert_eq!(fds[0].fd(), 0);
    assert_eq!(fds[0].fdtype(), 1);
    assert_eq!(fds[0].pipe_id(), None);
    assert_eq!(fds[1].fd(), 1);
    assert_eq!(fds[1].fdtype(), PROX_FDTYPE_PIPE);
    assert_eq!(fds[1].pipe_id(), Some(77));
    assert_eq!(fds[2].pipe_id(), Some(0));
    assert_eq!(fds[3].fd(), 5);
    assert_eq!(fds[3].pipe_id(), None);
}

#[test]
fn pipe_id_for_every_type_code_near_the_pipe_type() {
    assert_eq!(PROX_FDTYPE_PIPE, 6);
    for fdtype in 0..20u32 {
        let record = FdRecord { fd: 3, fdtype, pipe_id: 1234 };
        let fd = Fd::new(&record);
        if fdtype == PROX_FDTYPE_PIPE {
            assert_eq!(fd.pipe_id(), Some(1234));
        } else {
            assert_eq!(fd.pipe_id(), None);
        }
    }
    let record = FdRecord { fd: -1, fdtype: u32::MAX, pipe_id: u64::MAX };
    assert_eq!(Fd::new(&record).pipe_id(), None);
    assert_eq!(Fd::new(&record).fd(), -1);
}

#[test]
fn fd_equality_looks_at_what_can_be_observed() {
    let a = FdRecord { fd: 3, fdtype: 1, pipe_id: 10 };
    let b = FdRecord { fd: 3, fdtype: 1, pipe_id: 20 };
    assert_eq!(Fd::new(&a), Fd::new(&b));
    let a = FdRecord { fd: 3, fdtype: PROX_FDTYPE_PIPE, pipe_id: 10 };
    let b = FdRecord { fd: 3, fdtype: PROX_FDTYPE_PIPE, pipe_id: 20 };
    assert_ne!(Fd::new(&a), Fd::new(&b));
    let b = FdRecord { fd: 4, fdtype: PROX_FDTYPE_PIPE, pipe_id: 10 };
    assert_ne!(Fd::new(&a), Fd::new(&b));
    let b = FdRecord { fd: 3, fdtype: 5, pipe_id: 10 };
    assert_ne!(Fd::new(&a), Fd::new(&b));
    assert_eq!(Fd::new(&a), Fd::new(&a.clone()));
}

#[test]
fn file_equality() {
    let a = file("/bin/ls");
    let b = file("/bin/ls");
    assert_eq!(File::new(&a), File::new(&b));
    let c = file("/bin/lz");
    assert_ne!(File::new(&a), File::new(&c));
    let d = file("/bin/l");
    assert_ne!(File::new(&a), File::new(&d));
    let e = FileRecord { path: b"/bin/ls", path_truncated: true };
    assert_ne!(File::new(&a), File::new(&e));
    assert!(File::new(&e).path_truncated());
}

#[test]
fn events_of_identical_data_are_equal() {
    let a = ls_record();
    let b = ls_record();
    for version in 0..9u32 {
        let left = EventExec::new(&a, version).unwrap();
        let right = EventExec::new(&b, version).unwrap();
        assert!(left == right);
        assert!(right == left);
        assert!(left == left);
    }
}

#[test]
fn events_of_different_versions_differ() {
    let a = ls_record();
    let left = EventExec::new(&a, 3).unwrap();
    let right = EventExec::new(&a, 4).unwrap();
    assert!(left != right);
}

#[test]
fn equality_sees_each_field_that_the_version_has() {
    let base = ls_record();
    let mut changed: Vec<ExecRecord> = Vec::new();
    let mut r = ls_record();
    r.target.pid = 1;
    changed.push(r);
    let mut r = ls_record();
    r.target.executable = file("/bin/zsh");
    changed.push(r);
    let mut r = ls_record();
    r.dyld_exec_path = b"/bin/other";
    changed.push(r);
    let mut r = ls_record();
    r.script = None;
    changed.push(r);
    let mut r = ls_record();
    r.script = Some(file("/tmp/other.sh"));
    changed.push(r);
    let mut r = ls_record();
    r.cwd = file("/");
    changed.push(r);
    let mut r = ls_record();
    r.last_fd = 6;
    changed.push(r);
    let mut r = ls_record();
    r.image_cputype = 7;
    changed.push(r);
    let mut r = ls_record();
    r.image_cpusubtype = 3;
    changed.push(r);
    let mut r = ls_record();
    r.args[2] = b"/var";
    changed.push(r);
    let mut r = ls_record();
    r.args.pop();
    changed.push(r);
    let mut r = ls_record();
    r.envs[0] = b"PATH=/bin";
    changed.push(r);
    let mut r = ls_record();
    r.envs.push(b"HOME=/");
    changed.push(r);
    let mut r = ls_record();
    r.fds[1].pipe_id = 78;
    changed.push(r);
    let mut r = ls_record();
    r.fds[0].fd = 9;
    changed.push(r);
    let mut r = ls_record();
    r.fds.pop();
    changed.push(r);
    let left = EventExec::new(&base, 7).unwrap();
    for record in changed.iter() {
        let right = EventExec::new(record, 7).unwrap();
        assert!(left != right);
        assert!(right != left);
    }
}

#[test]
fn equality_ignores_fields_that_the_version_lacks() {
    let a = ls_record();
    let mut b = ls_record();
    b.cwd = file("/elsewhere");
    b.last_fd = 1000;
    b.image_cputype = 1;
    b.image_cpusubtype = 1;
    b.dyld_exec_path = b"garbage";
    b.fds[0].pipe_id = 31337;
    assert!(EventExec::new(&a, 2).unwrap() == EventExec::new(&b, 2).unwrap());
    assert!(EventExec::new(&a, 3).unwrap() != EventExec::new(&b, 3).unwrap());
    b.cwd = file("/home/user");
    assert!(EventExec::new(&a, 3).unwrap() == EventExec::new(&b, 3).unwrap());
    assert!(EventExec::new(&a, 4).unwrap() != EventExec::new(&b, 4).unwrap());
    b.script = None;
    assert!(EventExec::new(&a, 1).unwrap() == EventExec::new(&b, 1).unwrap());
    assert!(EventExec::new(&a, 2).unwrap() != EventExec::new(&b, 2).unwrap());
}

#[test]
fn last_of_nothing_is_nothing() {
    let mut record = ls_record();
    record.args.clear();
    record.envs.clear();
    record.fds.clear();
    let event = EventExec::new(&record, 4).unwrap();
    assert_eq!(event.arg_count(), 0);
    assert_eq!(event.args().last(), None);
    assert_eq!(event.envs().last(), None);
    assert_eq!(event.fds().last(), None);
    assert_eq!(event.args().next(), None);
    assert_eq!(event.args().nth(0), None);
    assert_eq!(event.args().count(), 0);
    assert_eq!(event.arg(0), None);
    assert_eq!(event.fd(0), None);
    assert!(event.args().collect().is_empty());
    assert!(event.all_args().is_empty());
}

#[test]
fn last_is_the_element_below_the_count() {
    let record = ls_record();
    let event = EventExec::new(&record, 4).unwrap();
    assert_eq!(event.args().last(), bytes("/tmp"));
    assert_eq!(event.args().last(), event.arg(event.arg_count() - 1));
    assert_eq!(event.envs().last(), bytes("PATH=/usr/bin"));
    assert_eq!(event.fds().last(), Some(Fd::new(&record.fds[3])));
    let mut args = event.args();
    args.next();
    assert_eq!(args.last(), bytes("/tmp"));
    let mut single = ls_record();
    single.args.truncate(1);
    let event = EventExec::new(&single, 4).unwrap();
    assert_eq!(event.args().last(), bytes("/bin/ls"));
}

#[test]
fn nth_matches_repeated_next_from_a_fresh_iterator() {
    let record = ls_record();
    let event = EventExec::new(&record, 4).unwrap();
    for n in 0..3usize {
        let mut stepped = event.args();
        let mut yielded = None;
        for _ in 0..=n {
            yielded = stepped.next();
        }
        assert!(yielded.is_some());
        assert_eq!(event.args().nth(n), yielded);
    }
    assert_eq!(event.args().nth(0), bytes("/bin/ls"));
    assert_eq!(event.args().nth(2), bytes("/tmp"));
    let mut fds = event.fds();
    assert_eq!(fds.nth(2), Some(Fd::new(&record.fds[2])));
    assert_eq!(fds.next(), Some(Fd::new(&record.fds[3])));
    assert_eq!(fds.next(), None);
}

#[test]
fn nth_at_or_past_the_count_yields_nothing() {
    let record = ls_record();
    let event = EventExec::new(&record, 4).unwrap();
    assert_eq!(event.args().nth(3), None);
    assert_eq!(event.args().nth(4), None);
    assert_eq!(event.args().nth(u32::MAX as usize), None);
    assert_eq!(event.args().nth(usize::MAX), None);
    let mut args = event.args();
    assert_eq!(args.nth(3), None);
    assert_eq!(args.next(), None);
    assert_eq!(args.len(), 0);
    assert_eq!(event.envs().nth(1), None);
    assert_eq!(event.fds().nth(4), None);
}

#[test]
fn collect_gives_what_is_left() {
    let record = ls_record();
    let event = EventExec::new(&record, 4).unwrap();
    let mut args = event.args();
    args.next();
    let rest: Vec<&[u8]> = vec![b"-la", b"/tmp"];
    assert_eq!(args.collect(), rest);
    let mut fds = event.fds();
    fds.nth(1);
    assert_eq!(fds.collect(), vec![Fd::new(&record.fds[2]), Fd::new(&record.fds[3])]);
}

#[test]
fn arguments_are_bytes_not_text() {
    let mut record = ls_record();
    record.args = vec![&[0xff, 0xfe, 0x00], &[]];
    let event = EventExec::new(&record, 1).unwrap();
    let raw: &[u8] = &[0xff, 0xfe, 0x00];
    let empty: &[u8] = &[];
    assert_eq!(event.arg(0), Some(raw));
    assert_eq!(event.arg(1), Some(empty));
    assert_eq!(event.arg(2), None);
}

fn can_go_to_another_thread<T: Send>(_: &T) {}

#[test]
fn events_and_their_views_can_be_handed_to_another_thread() {
    let record = ls_record();
    let event = EventExec::new(&record, 4).unwrap();
    can_go_to_another_thread(&event);
    can_go_to_another_thread(&event.args());
    can_go_to_another_thread(&event.envs());
    can_go_to_another_thread(&event.fds());
    can_go_to_another_thread(&event.fd(0).unwrap());
    can_go_to_another_thread(&event.target());
    can_go_to_another_thread(&event.cwd().unwrap());
}
