//! [`File`]

use vstd::prelude::*;
use vstd::std_specs::cmp::PartialEqSpecImpl;
use crate::bytes::bytes_eq;
use crate::record::FileRecord;
use crate::record::FileView;

verus! {

/// A file that relates to an event.
#[derive(Clone, Copy, Debug)]
pub struct File<'a> {
    /// The record that the file is read from.
    raw: &'a FileRecord<'a>,
}

impl<'a> View for File<'a> {
    type V = FileView;

    closed spec fn view(&self) -> FileView {
        self.raw@
    }
}

/// What an optional file holds.
pub open spec fn optional_file(file: Option<File>) -> Option<FileView> {
    match file {
        Some(f) => Some(f@),
        None => None,
    }
}

impl<'a> File<'a> {
    /// The file that `raw` describes.
    pub fn new(raw: &'a FileRecord<'a>) -> (file: File<'a>)
        ensures
            file@ == raw@,
    {
        File { raw }
    }

    /// Absolute path of the file.
    pub fn path(&self) -> (path: &'a [u8])
        ensures
            path@ == self@.path,
    {
        self.raw.path
    }

    /// Whether the path was cut short.
    pub fn path_truncated(&self) -> (truncated: bool)
        ensures
            truncated == self@.path_truncated,
    {
        self.raw.path_truncated
    }
}

impl<'a> PartialEq for File<'a> {
    /// Two files are equal if their paths and truncation flags agree.
    fn eq(&self, other: &File<'a>) -> (equal: bool) {
        self.path_truncated() == other.path_truncated() && bytes_eq(self.path(), other.path())
    }
}

impl<'a> PartialEqSpecImpl for File<'a> {
    open spec fn obeys_eq_spec() -> bool {
        true
    }

    open spec fn eq_spec(&self, other: &File<'a>) -> bool {
        self@ == other@
    }
}

impl<'a> Eq for File<'a> {
}

} // verus!
