//! Which fields a message of a given version has.

use vstd::prelude::*;

verus! {

/// The fields of an exec event that not every message version has.
#[derive(Clone, Copy, Debug, PartialEq, Eq, Hash, Structural)]
pub enum Field {
    /// Script being executed by an interpreter.
    Script,
    /// Working directory at exec time.
    Cwd,
    /// Highest open file descriptor after the exec completed.
    LastFd,
    /// CPU type of the executable image.
    ImageCputype,
    /// CPU subtype of the executable image.
    ImageCpusubtype,
    /// The exec path passed up to the dynamic linker.
    DyldExecPath,
}

impl Field {
    /// The first message version that has the field.
    pub open spec fn spec_min_version(self) -> u32 {
        match self {
            Field::Script => 2,
            Field::Cwd => 3,
            Field::LastFd => 4,
            Field::ImageCputype => 6,
            Field::ImageCpusubtype => 6,
            Field::DyldExecPath => 7,
        }
    }

    /// A message of version `version` has the field.
    pub open spec fn spec_present_in(self, version: u32) -> bool {
        version >= self.spec_min_version()
    }

    /// The first message version that has the field.
    #[verifier::when_used_as_spec(spec_min_version)]
    pub fn min_version(self) -> (min: u32)
        ensures
            min == self.spec_min_version(),
    {
        match self {
            Field::Script => 2,
            Field::Cwd => 3,
            Field::LastFd => 4,
            Field::ImageCputype => 6,
            Field::ImageCpusubtype => 6,
            Field::DyldExecPath => 7,
        }
    }

    /// Whether a message of version `version` has the field. A field must
    /// not be read from a message that does not have it.
    #[verifier::when_used_as_spec(spec_present_in)]
    pub fn present_in(self, version: u32) -> (present: bool)
        ensures
            present == self.spec_present_in(version),
    {
        version >= self.min_version()
    }
}

/// A field that a message version has is in every later version too.
pub proof fn lemma_present_in_later_versions(field: Field, version: u32, later: u32)
    requires
        field.present_in(version),
        later >= version,
    ensures
        field.present_in(later),
{
}

} // verus!
