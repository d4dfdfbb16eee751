//! Hashing events by what can be observed of them.
//!
//! An event is hashed by feeding a hasher a sequence of byte strings that is
//! a function of what the accessors of the event give, and of nothing else.
//! Events that are equal therefore hash alike.

use core::hash::Hasher;
use std::collections::hash_map::DefaultHasher;
use vstd::bytes::spec_u64_to_le_bytes;
use vstd::bytes::u64_to_le_bytes;
use vstd::prelude::*;
use vstd::std_specs::hash::DefaultHasherAdditionalSpecFns;
use crate::bytes::optional_bytes;
use crate::bytes::slices_view;
use crate::event_exec::EventExec;
use crate::event_exec::ExecObserved;
use crate::fd::fds_view;
use crate::fd::observed_fd;
use crate::fd::observed_fds;
use crate::fd::Fd;
use crate::fd::FdObserved;
use crate::file::optional_file;
use crate::file::File;
use crate::process::Process;
use crate::record::FileView;
use crate::record::ProcessView;
use crate::walk::Walk;

verus! {

/// What is fed for a number: its eight bytes, lowest first.
pub open spec fn feed_number(x: u64) -> Seq<Seq<u8>> {
    seq![spec_u64_to_le_bytes(x)]
}

/// What is fed for a signed number: the number that lies as far above 0 as
/// `x` lies above the smallest signed number.
pub open spec fn feed_signed(x: i32) -> Seq<Seq<u8>> {
    feed_number((x + 0x8000_0000) as u64)
}

/// What is fed for a flag: the number 1 if it is set, and 0 if not.
pub open spec fn feed_flag(flag: bool) -> Seq<Seq<u8>> {
    feed_number(if flag { 1 } else { 0 })
}

/// What is fed for a byte string: its length, then its bytes.
pub open spec fn feed_string(bytes: Seq<u8>) -> Seq<Seq<u8>> {
    feed_number(bytes.len() as u64).push(bytes)
}

/// What is fed for an optional number: whether it is present, then the
/// number if it is.
pub open spec fn feed_optional_number(x: Option<u64>) -> Seq<Seq<u8>> {
    match x {
        Some(x) => feed_flag(true) + feed_number(x),
        None => feed_flag(false),
    }
}

/// What is fed for an optional signed number.
pub open spec fn feed_optional_signed(x: Option<i32>) -> Seq<Seq<u8>> {
    match x {
        Some(x) => feed_flag(true) + feed_signed(x),
        None => feed_flag(false),
    }
}

/// What is fed for an optional byte string.
pub open spec fn feed_optional_string(bytes: Option<Seq<u8>>) -> Seq<Seq<u8>> {
    match bytes {
        Some(b) => feed_flag(true) + feed_string(b),
        None => feed_flag(false),
    }
}

/// What is fed for a file: its path, then whether the path was cut short.
pub open spec fn feed_file(file: FileView) -> Seq<Seq<u8>> {
    feed_string(file.path) + feed_flag(file.path_truncated)
}

/// What is fed for an optional file.
pub open spec fn feed_optional_file(file: Option<FileView>) -> Seq<Seq<u8>> {
    match file {
        Some(f) => feed_flag(true) + feed_file(f),
        None => feed_flag(false),
    }
}

/// What is fed for a process: its message version, its id, its executable.
pub open spec fn feed_process(process: ProcessView, version: u32) -> Seq<Seq<u8>> {
    feed_number(version as u64) + feed_signed(process.pid) + feed_file(process.executable)
}

/// What is fed for a descriptor: its number, its type, its optional pipe id.
pub open spec fn feed_fd(fd: FdObserved) -> Seq<Seq<u8>> {
    feed_signed(fd.fd) + feed_number(fd.fdtype as u64) + feed_optional_number(fd.pipe_id)
}

/// What is fed for the byte strings of a list, one after the other.
pub open spec fn feed_each_string(list: Seq<Seq<u8>>) -> Seq<Seq<u8>>
    decreases list.len(),
{
    if list.len() == 0 {
        Seq::empty()
    } else {
        feed_each_string(list.drop_last()) + feed_string(list.last())
    }
}

/// What is fed for a list of byte strings: its length, then each of them.
pub open spec fn feed_strings(list: Seq<Seq<u8>>) -> Seq<Seq<u8>> {
    feed_number(list.len() as u64) + feed_each_string(list)
}

/// What is fed for the descriptors of a list, one after the other.
pub open spec fn feed_each_fd(list: Seq<FdObserved>) -> Seq<Seq<u8>>
    decreases list.len(),
{
    if list.len() == 0 {
        Seq::empty()
    } else {
        feed_each_fd(list.drop_last()) + feed_fd(list.last())
    }
}

/// What is fed for a list of descriptors: its length, then each of them.
pub open spec fn feed_fds(list: Seq<FdObserved>) -> Seq<Seq<u8>> {
    feed_number(list.len() as u64) + feed_each_fd(list)
}

/// What is fed for an event: every part of what can be observed of it.
pub open spec fn feed_event(event: ExecObserved) -> Seq<Seq<u8>> {
    feed_number(event.version as u64) + feed_process(event.target, event.version)
        + feed_optional_string(event.dyld_exec_path) + feed_optional_file(event.script)
        + feed_optional_file(event.cwd) + feed_optional_signed(event.last_fd)
        + feed_optional_signed(event.image_cputype) + feed_optional_signed(
        event.image_cpusubtype,
    ) + feed_strings(event.args) + feed_strings(event.envs) + feed_fds(event.fds)
}

/// Feeding `more` after `fed` is feeding the two in a row.
proof fn lemma_fed_more(
    start: Seq<Seq<u8>>,
    fed: Seq<Seq<u8>>,
    more: Seq<Seq<u8>>,
    now: Seq<Seq<u8>>,
)
    requires
        now == (start + fed) + more,
    ensures
        now == start + (fed + more),
{
    assert((start + fed) + more =~= start + (fed + more));
}

/// Feeds a number.
pub(crate) fn write_number(state: &mut DefaultHasher, x: u64)
    ensures
        final(state)@ == old(state)@ + feed_number(x),
{
    let bytes = u64_to_le_bytes(x);
    state.write(bytes.as_slice());
    assert(final(state)@ =~= old(state)@ + feed_number(x));
}

/// Feeds a signed number.
pub(crate) fn write_signed(state: &mut DefaultHasher, x: i32)
    ensures
        final(state)@ == old(state)@ + feed_signed(x),
{
    let raised: i64 = x as i64 + 0x8000_0000;
    write_number(state, raised as u64);
}

/// Feeds a flag.
pub(crate) fn write_flag(state: &mut DefaultHasher, flag: bool)
    ensures
        final(state)@ == old(state)@ + feed_flag(flag),
{
    write_number(
        state,
        if flag {
            1
        } else {
            0
        },
    );
}

/// Feeds a byte string.
pub(crate) fn write_string(state: &mut DefaultHasher, bytes: &[u8])
    ensures
        final(state)@ == old(state)@ + feed_string(bytes@),
{
    write_number(state, bytes.len() as u64);
    state.write(bytes);
    assert(final(state)@ =~= old(state)@ + feed_string(bytes@));
}

/// Feeds an optional number.
pub(crate) fn write_optional_number(state: &mut DefaultHasher, x: Option<u64>)
    ensures
        final(state)@ == old(state)@ + feed_optional_number(x),
{
    match x {
        Some(x) => {
            write_flag(state, true);
            write_number(state, x);
            assert(final(state)@ =~= old(state)@ + feed_optional_number(Some(x)));
        },
        None => {
            write_flag(state, false);
        },
    }
}

/// Feeds an optional signed number.
pub(crate) fn write_optional_signed(state: &mut DefaultHasher, x: Option<i32>)
    ensures
        final(state)@ == old(state)@ + feed_optional_signed(x),
{
    match x {
        Some(x) => {
            write_flag(state, true);
            write_signed(state, x);
            assert(final(state)@ =~= old(state)@ + feed_optional_signed(Some(x)));
        },
        None => {
            write_flag(state, false);
        },
    }
}

/// Feeds an optional byte string.
pub(crate) fn write_optional_string(state: &mut DefaultHasher, bytes: Option<&[u8]>)
    ensures
        final(state)@ == old(state)@ + feed_optional_string(optional_bytes(bytes)),
{
    match bytes {
        Some(b) => {
            write_flag(state, true);
            write_string(state, b);
            assert(final(state)@ =~= old(state)@ + feed_optional_string(Some(b@)));
        },
        None => {
            write_flag(state, false);
        },
    }
}

/// Feeds a file.
pub(crate) fn write_file(state: &mut DefaultHasher, file: &File)
    ensures
        final(state)@ == old(state)@ + feed_file(file@),
{
    write_string(state, file.path());
    write_flag(state, file.path_truncated());
    assert(final(state)@ =~= old(state)@ + feed_file(file@));
}

/// Feeds an optional file.
pub(crate) fn write_optional_file(state: &mut DefaultHasher, file: Option<File>)
    ensures
        final(state)@ == old(state)@ + feed_optional_file(optional_file(file)),
{
    match file {
        Some(f) => {
            write_flag(state, true);
            write_file(state, &f);
            assert(final(state)@ =~= old(state)@ + feed_optional_file(Some(f@)));
        },
        None => {
            write_flag(state, false);
        },
    }
}

/// Feeds a process.
pub(crate) fn write_process(state: &mut DefaultHasher, process: &Process)
    ensures
        final(state)@ == old(state)@ + feed_process(process@, process.spec_version()),
{
    write_number(state, process.version() as u64);
    write_signed(state, process.pid());
    write_file(state, &process.executable());
    assert(final(state)@ =~= old(state)@ + feed_process(process@, process.spec_version()));
}

/// Feeds a descriptor.
pub(crate) fn write_fd(state: &mut DefaultHasher, fd: &Fd)
    ensures
        final(state)@ == old(state)@ + feed_fd(observed_fd(fd@)),
{
    write_signed(state, fd.fd());
    write_number(state, fd.fdtype() as u64);
    write_optional_number(state, fd.pipe_id());
    assert(final(state)@ =~= old(state)@ + feed_fd(observed_fd(fd@)));
}

/// Feeds a list of byte strings.
pub(crate) fn write_strings(state: &mut DefaultHasher, list: &Vec<&[u8]>)
    ensures
        final(state)@ == old(state)@ + feed_strings(slices_view(list@)),
{
    let ghost all = slices_view(list@);
    write_number(state, list.len() as u64);
    let ghost start = state@;
    let mut i: usize = 0;
    assert(state@ =~= start + feed_each_string(all.take(0)));
    while i < list.len()
        invariant
            i <= list@.len(),
            all == slices_view(list@),
            state@ == start + feed_each_string(all.take(i as int)),
        decreases list@.len() - i,
    {
        let ghost before = state@;
        write_string(state, list[i]);
        proof {
            let next = all.take(i + 1);
            assert(next.drop_last() =~= all.take(i as int));
            assert(next.last() == list@[i as int]@);
            assert(state@ =~= start + feed_each_string(next));
        }
        i += 1;
    }
    assert(all.take(i as int) =~= all);
    assert(final(state)@ =~= old(state)@ + feed_strings(all));
}

/// Feeds a list of descriptors.
pub(crate) fn write_fds(state: &mut DefaultHasher, list: &Vec<Fd>)
    ensures
        final(state)@ == old(state)@ + feed_fds(observed_fds(fds_view(list@))),
{
    let ghost all = observed_fds(fds_view(list@));
    write_number(state, list.len() as u64);
    let ghost start = state@;
    let mut i: usize = 0;
    assert(state@ =~= start + feed_each_fd(all.take(0)));
    while i < list.len()
        invariant
            i <= list@.len(),
            all == observed_fds(fds_view(list@)),
            state@ == start + feed_each_fd(all.take(i as int)),
        decreases list@.len() - i,
    {
        write_fd(state, &list[i]);
        proof {
            let next = all.take(i + 1);
            assert(next.drop_last() =~= all.take(i as int));
            assert(next.last() == observed_fd(list@[i as int]@));
            assert(state@ =~= start + feed_each_fd(next));
        }
        i += 1;
    }
    assert(all.take(i as int) =~= all);
    assert(final(state)@ =~= old(state)@ + feed_fds(all));
}

impl<'a> Fd<'a> {
    /// Feeds `state` what can be observed of the descriptor.
    pub fn hash_into(&self, state: &mut DefaultHasher)
        ensures
            final(state)@ == old(state)@ + feed_fd(observed_fd(self@)),
    {
        write_fd(state, self);
    }
}

impl<'a> EventExec<'a> {
    /// What a hasher is fed for the event.
    pub open spec fn hash_feed(&self) -> Seq<Seq<u8>> {
        feed_event(self.observed())
    }

    /// Feeds `state` what can be observed of the event: the message version
    /// and what each accessor gives, the arguments, environment variables
    /// and file descriptors included.
    pub fn hash_into(&self, state: &mut DefaultHasher)
        ensures
            final(state)@ == old(state)@ + self.hash_feed(),
    {
        let ghost observed = self.observed();
        let ghost start = state@;
        write_number(state, self.version() as u64);
        let ghost mut fed = feed_number(observed.version as u64);
        write_process(state, &self.target());
        proof {
            let part = feed_process(observed.target, observed.version);
            lemma_fed_more(start, fed, part, state@);
            fed = fed + part;
        }
        write_optional_string(state, self.dyld_exec_path());
        proof {
            let part = feed_optional_string(observed.dyld_exec_path);
            lemma_fed_more(start, fed, part, state@);
            fed = fed + part;
        }
        write_optional_file(state, self.script());
        proof {
            let part = feed_optional_file(observed.script);
            lemma_fed_more(start, fed, part, state@);
            fed = fed + part;
        }
        write_optional_file(state, self.cwd());
        proof {
            let part = feed_optional_file(observed.cwd);
            lemma_fed_more(start, fed, part, state@);
            fed = fed + part;
        }
        write_optional_signed(state, self.last_fd());
        proof {
            let part = feed_optional_signed(observed.last_fd);
            lemma_fed_more(start, fed, part, state@);
            fed = fed + part;
        }
        write_optional_signed(state, self.image_cputype());
        proof {
            let part = feed_optional_signed(observed.image_cputype);
            lemma_fed_more(start, fed, part, state@);
            fed = fed + part;
        }
        write_optional_signed(state, self.image_cpusubtype());
        proof {
            let part = feed_optional_signed(observed.image_cpusubtype);
            lemma_fed_more(start, fed, part, state@);
            fed = fed + part;
        }
        write_strings(state, &self.all_args());
        proof {
            let part = feed_strings(observed.args);
            lemma_fed_more(start, fed, part, state@);
            fed = fed + part;
        }
        let envs = self.envs().collect();
        proof {
            assert(Walk::fresh(self@.envs).rest() =~= self@.envs);
        }
        write_strings(state, &envs);
        proof {
            let part = feed_strings(observed.envs);
            lemma_fed_more(start, fed, part, state@);
            fed = fed + part;
        }
        let fds = self.fds().collect();
        proof {
            assert(Walk::fresh(self@.fds).rest() =~= self@.fds);
        }
        write_fds(state, &fds);
        proof {
            let part = feed_fds(observed.fds);
            lemma_fed_more(start, fed, part, state@);
            fed = fed + part;
        }
        assert(fed == feed_event(observed));
    }

    /// The hash of the event. Equal events have the same hash.
    pub fn digest(&self) -> (digest: u64)
        ensures
            digest == DefaultHasher::spec_finish(self.hash_feed()),
    {
        let mut state = DefaultHasher::new();
        self.hash_into(&mut state);
        assert(state@ =~= self.hash_feed());
        state.finish()
    }
}

/// Events that are equal are fed to a hasher in the same way, and so hash
/// alike.
pub proof fn lemma_equal_events_hash_alike(a: EventExec, b: EventExec)
    requires
        a.observed() == b.observed(),
    ensures
        a.hash_feed() == b.hash_feed(),
        DefaultHasher::spec_finish(a.hash_feed()) == DefaultHasher::spec_finish(b.hash_feed()),
{
}

} // verus!
