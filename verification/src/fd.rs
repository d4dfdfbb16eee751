//! [`Fd`]

use vstd::prelude::*;
use vstd::std_specs::cmp::PartialEqSpecImpl;
use crate::record::FdRecord;

verus! {

/// The descriptor type of a pipe.
pub const PROX_FDTYPE_PIPE: u32 = 6;

/// The pipe id of a descriptor: present for a pipe, and for nothing else.
pub open spec fn spec_pipe_id(record: FdRecord) -> Option<u64> {
    if record.fdtype == PROX_FDTYPE_PIPE {
        Some(record.pipe_id)
    } else {
        None
    }
}

/// What can be observed of a descriptor: its number, its type, and its pipe
/// id where it is a pipe.
pub struct FdObserved {
    pub fd: i32,
    pub fdtype: u32,
    pub pipe_id: Option<u64>,
}

/// What can be observed of the descriptor that `record` describes.
pub open spec fn observed_fd(record: FdRecord) -> FdObserved {
    FdObserved { fd: record.fd, fdtype: record.fdtype, pipe_id: spec_pipe_id(record) }
}

/// What can be observed of each descriptor of a list.
pub open spec fn observed_fds(records: Seq<FdRecord>) -> Seq<FdObserved> {
    Seq::new(records.len(), |i: int| observed_fd(records[i]))
}

/// Describes an open file descriptor.
#[derive(Clone, Copy, Debug)]
pub struct Fd<'a> {
    /// The record that the descriptor is read from.
    raw: &'a FdRecord,
}

impl<'a> View for Fd<'a> {
    type V = FdRecord;

    closed spec fn view(&self) -> FdRecord {
        *self.raw
    }
}

/// The record of an optional descriptor.
pub open spec fn optional_fd(fd: Option<Fd>) -> Option<FdRecord> {
    match fd {
        Some(f) => Some(f@),
        None => None,
    }
}

/// The records of a list of descriptors.
pub open spec fn fds_view(list: Seq<Fd>) -> Seq<FdRecord> {
    Seq::new(list.len(), |i: int| list[i]@)
}

impl<'a> Fd<'a> {
    /// The descriptor that `raw` describes.
    pub fn new(raw: &'a FdRecord) -> (fd: Fd<'a>)
        ensures
            fd@ == *raw,
    {
        Fd { raw }
    }

    /// File descriptor number.
    pub fn fd(&self) -> (fd: i32)
        ensures
            fd == self@.fd,
    {
        self.raw.fd
    }

    /// File descriptor type, as a libproc fdtype.
    pub fn fdtype(&self) -> (fdtype: u32)
        ensures
            fdtype == self@.fdtype,
    {
        self.raw.fdtype
    }

    /// Unique id of the pipe, for correlation with other file descriptors
    /// that point to the same or the other end of the same pipe.
    ///
    /// Present exactly when the descriptor type is [`PROX_FDTYPE_PIPE`].
    pub fn pipe_id(&self) -> (id: Option<u64>)
        ensures
            id == spec_pipe_id(self@),
            id is Some <==> self@.fdtype == PROX_FDTYPE_PIPE,
            id matches Some(pipe_id) ==> pipe_id == self@.pipe_id,
    {
        if self.raw.fdtype == PROX_FDTYPE_PIPE {
            Some(self.raw.pipe_id)
        } else {
            None
        }
    }
}

impl<'a> PartialEq for Fd<'a> {
    /// Two descriptors are equal if their numbers, types and pipe ids agree.
    /// What the record of a descriptor that is no pipe holds as pipe id is
    /// not looked at.
    fn eq(&self, other: &Fd<'a>) -> (equal: bool) {
        self.fd() == other.fd() && self.fdtype() == other.fdtype() && self.pipe_id()
            == other.pipe_id()
    }
}

impl<'a> PartialEqSpecImpl for Fd<'a> {
    open spec fn obeys_eq_spec() -> bool {
        true
    }

    open spec fn eq_spec(&self, other: &Fd<'a>) -> bool {
        observed_fd(self@) == observed_fd(other@)
    }
}

/// Whether two lists hold equal descriptors in the same order.
pub fn fds_eq(a: &Vec<Fd>, b: &Vec<Fd>) -> (equal: bool)
    ensures
        equal == (observed_fds(fds_view(a@)) == observed_fds(fds_view(b@))),
{
    if a.len() != b.len() {
        assert(observed_fds(fds_view(a@)).len() != observed_fds(fds_view(b@)).len());
        return false;
    }
    let mut i: usize = 0;
    while i < a.len()
        invariant
            a@.len() == b@.len(),
            i <= a@.len(),
            forall|j: int| 0 <= j < i ==> observed_fd(a@[j]@) == observed_fd(b@[j]@),
        decreases a@.len() - i,
    {
        if a[i] != b[i] {
            assert(observed_fds(fds_view(a@))[i as int] != observed_fds(fds_view(b@))[i as int]);
            return false;
        }
        i += 1;
    }
    assert(observed_fds(fds_view(a@)) =~= observed_fds(fds_view(b@)));
    true
}

impl<'a> Eq for Fd<'a> {
}

} // verus!
