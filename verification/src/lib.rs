//! Safe, version-gated access to process-execution events.
//!
//! An exec event arrives as a record whose optional fields depend on the
//! version of the message that carries it, and whose arguments, environment
//! variables and file descriptors are counted arrays that are read one index
//! at a time. This crate holds such a record as plain values, gates every
//! optional field by the message version, and walks the counted arrays with
//! lazy iterators that never form an index outside an array.

pub mod walk;
pub mod cursor;
pub mod record;
pub mod gate;
pub mod bytes;
pub mod file;
pub mod process;
pub mod fd;
pub mod event_exec;
pub mod exec_iter;
pub mod digest;

pub use cursor::Cursor;
pub use event_exec::EventExec;
pub use exec_iter::ExecArgs;
pub use exec_iter::ExecEnvs;
pub use exec_iter::ExecFds;
pub use fd::Fd;
pub use fd::PROX_FDTYPE_PIPE;
pub use file::File;
pub use gate::Field;
pub use process::Process;
pub use record::ExecRecord;
pub use record::FdRecord;
pub use record::FileRecord;
pub use record::ProcessRecord;
