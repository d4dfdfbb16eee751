//! Exec records as plain values.
//!
//! These types hold what one exec event carries, field by field. A byte
//! string of a record is borrowed from the message that the event came in,
//! and is never copied. A record holds every field, whatever the version of
//! the message: a field that the message version does not have holds a value
//! without meaning, and the accessors of the event types never hand it out.

use vstd::prelude::*;
use crate::bytes::slices_view;

verus! {

/// A file that relates to an event.
#[derive(Clone, Copy, Debug)]
pub struct FileRecord<'a> {
    /// Absolute path of the file, as raw bytes.
    pub path: &'a [u8],
    /// Whether `path` was cut short.
    pub path_truncated: bool,
}

/// What a [`FileRecord`] holds.
pub struct FileView {
    pub path: Seq<u8>,
    pub path_truncated: bool,
}

impl<'a> View for FileRecord<'a> {
    type V = FileView;

    open spec fn view(&self) -> FileView {
        FileView { path: self.path@, path_truncated: self.path_truncated }
    }
}

/// A process that relates to an event.
#[derive(Clone, Copy, Debug)]
pub struct ProcessRecord<'a> {
    /// Process id.
    pub pid: i32,
    /// The executable that the process runs.
    pub executable: FileRecord<'a>,
}

/// What a [`ProcessRecord`] holds.
pub struct ProcessView {
    pub pid: i32,
    pub executable: FileView,
}

impl<'a> View for ProcessRecord<'a> {
    type V = ProcessView;

    open spec fn view(&self) -> ProcessView {
        ProcessView { pid: self.pid, executable: self.executable@ }
    }
}

/// An open file descriptor.
#[derive(Clone, Copy, Debug)]
pub struct FdRecord {
    /// File descriptor number.
    pub fd: i32,
    /// File descriptor type, as a libproc fdtype.
    pub fdtype: u32,
    /// Id of the pipe. It has a meaning only where `fdtype` is the pipe type.
    pub pipe_id: u64,
}

/// One exec event.
#[derive(Clone, Debug)]
pub struct ExecRecord<'a> {
    /// The new process that is being executed.
    pub target: ProcessRecord<'a>,
    /// The exec path passed up to the dynamic linker.
    pub dyld_exec_path: &'a [u8],
    /// Script being executed by an interpreter, if there is one.
    pub script: Option<FileRecord<'a>>,
    /// Working directory at exec time.
    pub cwd: FileRecord<'a>,
    /// Highest open file descriptor after the exec completed.
    pub last_fd: i32,
    /// CPU type of the executable image.
    pub image_cputype: i32,
    /// CPU subtype of the executable image.
    pub image_cpusubtype: i32,
    /// Arguments, in order.
    pub args: Vec<&'a [u8]>,
    /// Environment variables, in order.
    pub envs: Vec<&'a [u8]>,
    /// Open file descriptors, in order.
    pub fds: Vec<FdRecord>,
}

/// What an [`ExecRecord`] holds.
pub struct ExecView {
    pub target: ProcessView,
    pub dyld_exec_path: Seq<u8>,
    pub script: Option<FileView>,
    pub cwd: FileView,
    pub last_fd: i32,
    pub image_cputype: i32,
    pub image_cpusubtype: i32,
    pub args: Seq<Seq<u8>>,
    pub envs: Seq<Seq<u8>>,
    pub fds: Seq<FdRecord>,
}

/// What an optional file holds.
pub open spec fn optional_file_view(file: Option<FileRecord>) -> Option<FileView> {
    match file {
        Some(f) => Some(f@),
        None => None,
    }
}

impl<'a> View for ExecRecord<'a> {
    type V = ExecView;

    open spec fn view(&self) -> ExecView {
        ExecView {
            target: self.target@,
            dyld_exec_path: self.dyld_exec_path@,
            script: optional_file_view(self.script),
            cwd: self.cwd@,
            last_fd: self.last_fd,
            image_cputype: self.image_cputype,
            image_cpusubtype: self.image_cpusubtype,
            args: slices_view(self.args@),
            envs: slices_view(self.envs@),
            fds: self.fds@,
        }
    }
}

} // verus!
