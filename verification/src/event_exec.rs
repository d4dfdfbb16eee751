//! [`EventExec`]

use vstd::prelude::*;
use vstd::std_specs::cmp::PartialEqSpec;
use vstd::std_specs::cmp::PartialEqSpecImpl;
use crate::bytes::optional_bytes;
use crate::bytes::optional_bytes_eq;
use crate::bytes::slices_eq;
use crate::bytes::slices_view;
use crate::exec_iter::ExecArgs;
use crate::exec_iter::ExecEnvs;
use crate::exec_iter::ExecFds;
use crate::fd::fds_eq;
use crate::fd::observed_fds;
use crate::fd::optional_fd;
use crate::fd::Fd;
use crate::fd::FdObserved;
use crate::file::optional_file;
use crate::file::File;
use crate::gate::Field;
use crate::process::Process;
use crate::record::ExecRecord;
use crate::record::ExecView;
use crate::record::FileView;
use crate::record::ProcessView;
use crate::walk::element;
use crate::walk::MAX_POSITION;
use crate::walk::Walk;

verus! {

/// What can be observed of an exec event: its message version, and what each
/// of its accessors gives.
pub struct ExecObserved {
    pub version: u32,
    pub target: ProcessView,
    pub dyld_exec_path: Option<Seq<u8>>,
    pub script: Option<FileView>,
    pub cwd: Option<FileView>,
    pub last_fd: Option<i32>,
    pub image_cputype: Option<i32>,
    pub image_cpusubtype: Option<i32>,
    pub args: Seq<Seq<u8>>,
    pub envs: Seq<Seq<u8>>,
    pub fds: Seq<FdObserved>,
}

/// A process execution event.
///
/// The event borrows its record and never changes it. Fields that the
/// version of the message does not have are reported as absent, whatever the
/// record holds in their place.
pub struct EventExec<'a> {
    /// The record.
    pub(crate) raw: &'a ExecRecord<'a>,
    /// The version of the message.
    pub(crate) version: u32,
}

impl<'a> View for EventExec<'a> {
    type V = ExecView;

    closed spec fn view(&self) -> ExecView {
        self.raw@
    }
}

impl<'a> EventExec<'a> {
    /// The counted arrays of a record can be walked: none of them has more
    /// elements than a 32-bit count can tell.
    pub open spec fn countable(record: ExecView) -> bool {
        &&& record.args.len() <= MAX_POSITION
        &&& record.envs.len() <= MAX_POSITION
        &&& record.fds.len() <= MAX_POSITION
    }

    /// Every event is made of a record whose arrays can be walked.
    #[verifier::type_invariant]
    pub open spec fn wf(&self) -> bool {
        Self::countable(self@)
    }

    /// The version of the message.
    pub closed spec fn spec_version(&self) -> u32 {
        self.version
    }

    /// Whether the message of the event has `field`.
    pub open spec fn has(&self, field: Field) -> bool {
        field.present_in(self.spec_version())
    }

    /// The exec path passed up to the dynamic linker, where the message has it.
    pub open spec fn spec_dyld_exec_path(&self) -> Option<Seq<u8>> {
        if self.has(Field::DyldExecPath) {
            Some(self@.dyld_exec_path)
        } else {
            None
        }
    }

    /// The script, where the message has the field and a script was run.
    pub open spec fn spec_script(&self) -> Option<FileView> {
        if self.has(Field::Script) {
            self@.script
        } else {
            None
        }
    }

    /// The working directory, where the message has it.
    pub open spec fn spec_cwd(&self) -> Option<FileView> {
        if self.has(Field::Cwd) {
            Some(self@.cwd)
        } else {
            None
        }
    }

    /// The highest open file descriptor, where the message has it.
    pub open spec fn spec_last_fd(&self) -> Option<i32> {
        if self.has(Field::LastFd) {
            Some(self@.last_fd)
        } else {
            None
        }
    }

    /// The CPU type of the image, where the message has it.
    pub open spec fn spec_image_cputype(&self) -> Option<i32> {
        if self.has(Field::ImageCputype) {
            Some(self@.image_cputype)
        } else {
            None
        }
    }

    /// The CPU subtype of the image, where the message has it.
    pub open spec fn spec_image_cpusubtype(&self) -> Option<i32> {
        if self.has(Field::ImageCpusubtype) {
            Some(self@.image_cpusubtype)
        } else {
            None
        }
    }

    /// What can be observed of the event. A field that the message version
    /// does not have is absent here, whatever the record holds for it.
    pub open spec fn observed(&self) -> ExecObserved {
        ExecObserved {
            version: self.spec_version(),
            target: self@.target,
            dyld_exec_path: self.spec_dyld_exec_path(),
            script: self.spec_script(),
            cwd: self.spec_cwd(),
            last_fd: self.spec_last_fd(),
            image_cputype: self.spec_image_cputype(),
            image_cpusubtype: self.spec_image_cpusubtype(),
            args: self@.args,
            envs: self@.envs,
            fds: observed_fds(self@.fds),
        }
    }

    /// The event that `raw` describes, in a message of version `version`.
    ///
    /// There is no event for a record with an array of more elements than a
    /// 32-bit count can tell.
    pub fn new(raw: &'a ExecRecord<'a>, version: u32) -> (event: Option<EventExec<'a>>)
        ensures
            event is Some <==> Self::countable(raw@),
            event matches Some(e) ==> e@ == raw@ && e.spec_version() == version && e.wf(),
    {
        let max: usize = MAX_POSITION as usize;
        if raw.args.len() <= max && raw.envs.len() <= max && raw.fds.len() <= max {
            Some(EventExec { raw, version })
        } else {
            None
        }
    }

    /// The version of the message.
    #[verifier::when_used_as_spec(spec_version)]
    pub fn version(&self) -> (version: u32)
        ensures
            version == self.spec_version(),
    {
        self.version
    }

    /// The new process that is being executed.
    pub fn target(&self) -> (process: Process<'a>)
        ensures
            process@ == self@.target,
            process.spec_version() == self.spec_version(),
    {
        Process::new(&self.raw.target, self.version)
    }

    /// The exec path passed up to the dynamic linker, before symlink
    /// resolution: the path argument of the exec call, or the interpreter
    /// from the shebang line of a script.
    ///
    /// Present on version 7 and later.
    pub fn dyld_exec_path(&self) -> (path: Option<&'a [u8]>)
        ensures
            optional_bytes(path) == self.spec_dyld_exec_path(),
            path is Some <==> self.spec_version() >= 7,
    {
        if Field::DyldExecPath.present_in(self.version) {
            Some(self.raw.dyld_exec_path)
        } else {
            None
        }
    }

    /// Script being executed by an interpreter, on version 2 and later and
    /// where a script was executed directly, not as an argument to the
    /// interpreter.
    pub fn script(&self) -> (script: Option<File<'a>>)
        ensures
            optional_file(script) == self.spec_script(),
            script is Some <==> self.spec_version() >= 2 && self@.script is Some,
    {
        if Field::Script.present_in(self.version) {
            match &self.raw.script {
                Some(file) => Some(File::new(file)),
                None => None,
            }
        } else {
            None
        }
    }

    /// Working directory at exec time, on version 3 and later.
    pub fn cwd(&self) -> (cwd: Option<File<'a>>)
        ensures
            optional_file(cwd) == self.spec_cwd(),
            cwd is Some <==> self.spec_version() >= 3,
    {
        if Field::Cwd.present_in(self.version) {
            Some(File::new(&self.raw.cwd))
        } else {
            None
        }
    }

    /// Highest open file descriptor after the exec completed, on version 4
    /// and later.
    pub fn last_fd(&self) -> (last_fd: Option<i32>)
        ensures
            last_fd == self.spec_last_fd(),
            last_fd is Some <==> self.spec_version() >= 4,
    {
        if Field::LastFd.present_in(self.version) {
            Some(self.raw.last_fd)
        } else {
            None
        }
    }

    /// The number of arguments.
    pub fn arg_count(&self) -> (count: u32)
        ensures
            count == self@.args.len(),
    {
        proof {
            use_type_invariant(self);
        }
        self.raw.args.len() as u32
    }

    /// The number of environment variables.
    pub fn env_count(&self) -> (count: u32)
        ensures
            count == self@.envs.len(),
    {
        proof {
            use_type_invariant(self);
        }
        self.raw.envs.len() as u32
    }

    /// The number of file descriptors.
    pub fn fd_count(&self) -> (count: u32)
        ensures
            count == self@.fds.len(),
    {
        proof {
            use_type_invariant(self);
        }
        self.raw.fds.len() as u32
    }

    /// The argument at `index`. The index must lie below the argument count:
    /// there is nothing to read at any other.
    pub(crate) fn arg_at(&self, index: u32) -> (arg: &'a [u8])
        requires
            index < self@.args.len(),
        ensures
            arg@ == self@.args[index as int],
    {
        self.raw.args[index as usize]
    }

    /// The environment variable at `index`. The index must lie below the
    /// environment count.
    pub(crate) fn env_at(&self, index: u32) -> (env: &'a [u8])
        requires
            index < self@.envs.len(),
        ensures
            env@ == self@.envs[index as int],
    {
        self.raw.envs[index as usize]
    }

    /// The file descriptor at `index`. The index must lie below the
    /// descriptor count.
    pub(crate) fn fd_at(&self, index: u32) -> (fd: Fd<'a>)
        requires
            index < self@.fds.len(),
        ensures
            fd@ == self@.fds[index as int],
    {
        Fd::new(&self.raw.fds[index as usize])
    }

    /// The argument at the given position, counted from 0, or nothing if
    /// there is no such position.
    pub fn arg(&self, index: u32) -> (arg: Option<&'a [u8]>)
        ensures
            optional_bytes(arg) == element(self@.args, index),
    {
        self.args().nth(index as usize)
    }

    /// The environment variable at the given position, counted from 0, or
    /// nothing if there is no such position.
    pub fn env(&self, index: u32) -> (env: Option<&'a [u8]>)
        ensures
            optional_bytes(env) == element(self@.envs, index),
    {
        self.envs().nth(index as usize)
    }

    /// The file descriptor at the given position, counted from 0, or nothing
    /// if there is no such position.
    pub fn fd(&self, index: u32) -> (fd: Option<Fd<'a>>)
        ensures
            optional_fd(fd) == element(self@.fds, index),
    {
        self.fds().nth(index as usize)
    }

    /// Iterator over the arguments, from the first.
    pub fn args<'event>(&'event self) -> (args: ExecArgs<'event, 'a>)
        ensures
            args@ == Walk::fresh(self@.args),
    {
        ExecArgs::new(self)
    }

    /// Iterator over the environment, from the first variable.
    pub fn envs<'event>(&'event self) -> (envs: ExecEnvs<'event, 'a>)
        ensures
            envs@ == Walk::fresh(self@.envs),
    {
        ExecEnvs::new(self)
    }

    /// Iterator over the file descriptors, from the first.
    pub fn fds<'event>(&'event self) -> (fds: ExecFds<'event, 'a>)
        ensures
            fds@ == Walk::fresh(self@.fds),
    {
        ExecFds::new(self)
    }

    /// CPU type of the executable image which is being executed, on version
    /// 6 and later.
    pub fn image_cputype(&self) -> (cputype: Option<i32>)
        ensures
            cputype == self.spec_image_cputype(),
            cputype is Some <==> self.spec_version() >= 6,
    {
        if Field::ImageCputype.present_in(self.version) {
            Some(self.raw.image_cputype)
        } else {
            None
        }
    }

    /// CPU subtype of the executable image, on version 6 and later.
    pub fn image_cpusubtype(&self) -> (cpusubtype: Option<i32>)
        ensures
            cpusubtype == self.spec_image_cpusubtype(),
            cpusubtype is Some <==> self.spec_version() >= 6,
    {
        if Field::ImageCpusubtype.present_in(self.version) {
            Some(self.raw.image_cpusubtype)
        } else {
            None
        }
    }

    /// All the arguments, in order.
    pub fn all_args(&self) -> (args: Vec<&'a [u8]>)
        ensures
            slices_view(args@) == self@.args,
    {
        self.args().collect()
    }
}

impl<'a> PartialEq for EventExec<'a> {
    /// Two events are equal if everything that can be observed of them
    /// agrees: the message version and what each accessor gives, the
    /// arguments, environment variables and file descriptors included.
    fn eq(&self, other: &EventExec<'a>) -> (equal: bool) {
        let scalars = self.version() == other.version() && self.target() == other.target()
            && self.last_fd() == other.last_fd() && self.image_cputype() == other.image_cputype()
            && self.image_cpusubtype() == other.image_cpusubtype();
        if !scalars {
            return false;
        }
        let files = self.script() == other.script() && self.cwd() == other.cwd()
            && optional_bytes_eq(self.dyld_exec_path(), other.dyld_exec_path());
        if !files {
            return false;
        }
        if !slices_eq(&self.all_args(), &other.all_args()) {
            return false;
        }
        proof {
            assert(Walk::fresh(self@.envs).rest() =~= self@.envs);
            assert(Walk::fresh(other@.envs).rest() =~= other@.envs);
            assert(Walk::fresh(self@.fds).rest() =~= self@.fds);
            assert(Walk::fresh(other@.fds).rest() =~= other@.fds);
        }
        if !slices_eq(&self.envs().collect(), &other.envs().collect()) {
            return false;
        }
        fds_eq(&self.fds().collect(), &other.fds().collect())
    }
}

impl<'a> PartialEqSpecImpl for EventExec<'a> {
    open spec fn obeys_eq_spec() -> bool {
        true
    }

    open spec fn eq_spec(&self, other: &EventExec<'a>) -> bool {
        self.observed() == other.observed()
    }
}

impl<'a> Eq for EventExec<'a> {
}

/// Two events made of records that hold the same data, in messages of the
/// same version, are equal.
pub proof fn lemma_same_data_equal(a: EventExec, b: EventExec)
    requires
        a@ == b@,
        a.spec_version() == b.spec_version(),
    ensures
        a.observed() == b.observed(),
        PartialEqSpec::eq_spec(&a, &b),
{
}

/// What a record holds for a field that the message version does not have
/// makes no difference to equality: two events are equal as soon as they
/// agree on the fields that their version has.
pub proof fn lemma_absent_fields_ignored(a: EventExec, b: EventExec)
    requires
        a.spec_version() == b.spec_version(),
        a@.target == b@.target,
        a@.args == b@.args,
        a@.envs == b@.envs,
        a@.fds == b@.fds,
        a.has(Field::DyldExecPath) ==> a@.dyld_exec_path == b@.dyld_exec_path,
        a.has(Field::Script) ==> a@.script == b@.script,
        a.has(Field::Cwd) ==> a@.cwd == b@.cwd,
        a.has(Field::LastFd) ==> a@.last_fd == b@.last_fd,
        a.has(Field::ImageCputype) ==> a@.image_cputype == b@.image_cputype,
        a.has(Field::ImageCpusubtype) ==> a@.image_cpusubtype == b@.image_cpusubtype,
    ensures
        PartialEqSpec::eq_spec(&a, &b),
{
}

/// Which fields an event has follows from its message version alone: the
/// script from version 2 where a script was run, the working directory from
/// version 3, the highest file descriptor from version 4, the CPU type and
/// subtype from version 6, the dynamic linker's exec path from version 7.
pub proof fn lemma_fields_by_version(event: EventExec)
    ensures
        event.spec_script() is Some <==> event.spec_version() >= 2 && event@.script is Some,
        event.spec_cwd() is Some <==> event.spec_version() >= 3,
        event.spec_last_fd() is Some <==> event.spec_version() >= 4,
        event.spec_image_cputype() is Some <==> event.spec_version() >= 6,
        event.spec_image_cpusubtype() is Some <==> event.spec_version() >= 6,
        event.spec_dyld_exec_path() is Some <==> event.spec_version() >= 7,
{
}

} // verus!
