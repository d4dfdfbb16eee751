//! [`Process`]

use vstd::prelude::*;
use vstd::std_specs::cmp::PartialEqSpecImpl;
use crate::file::File;
use crate::record::ProcessRecord;
use crate::record::ProcessView;

verus! {

/// A process that relates to an event, with the version of the message that
/// the event came in.
#[derive(Clone, Copy, Debug)]
pub struct Process<'a> {
    /// The record that the process is read from.
    raw: &'a ProcessRecord<'a>,
    /// The version of the message.
    version: u32,
}

impl<'a> View for Process<'a> {
    type V = ProcessView;

    closed spec fn view(&self) -> ProcessView {
        self.raw@
    }
}

impl<'a> Process<'a> {
    /// The version of the message.
    pub closed spec fn spec_version(&self) -> u32 {
        self.version
    }

    /// The process that `raw` describes, in a message of version `version`.
    pub fn new(raw: &'a ProcessRecord<'a>, version: u32) -> (process: Process<'a>)
        ensures
            process@ == raw@,
            process.spec_version() == version,
    {
        Process { raw, version }
    }

    /// The version of the message.
    #[verifier::when_used_as_spec(spec_version)]
    pub fn version(&self) -> (version: u32)
        ensures
            version == self.spec_version(),
    {
        self.version
    }

    /// Process id.
    pub fn pid(&self) -> (pid: i32)
        ensures
            pid == self@.pid,
    {
        self.raw.pid
    }

    /// The executable that the process runs.
    pub fn executable(&self) -> (file: File<'a>)
        ensures
            file@ == self@.executable,
    {
        File::new(&self.raw.executable)
    }
}

impl<'a> PartialEq for Process<'a> {
    /// Two processes are equal if their message versions, ids and
    /// executables agree.
    fn eq(&self, other: &Process<'a>) -> (equal: bool) {
        self.version() == other.version() && self.pid() == other.pid()
            && self.executable() == other.executable()
    }
}

impl<'a> PartialEqSpecImpl for Process<'a> {
    open spec fn obeys_eq_spec() -> bool {
        true
    }

    open spec fn eq_spec(&self, other: &Process<'a>) -> bool {
        self.spec_version() == other.spec_version() && self@ == other@
    }
}

impl<'a> Eq for Process<'a> {
}

} // verus!
