//! A file that is named once and then read and written.

use vstd::prelude::*;

verus! {

/// A file on the filesystem, known by its path.
#[derive(Debug, Clone, PartialEq, Eq)]
pub struct PersistentFile {
    file_path: String,
}

impl PersistentFile {
    /// The path that the file was made with.
    pub closed spec fn path_text(&self) -> Seq<char> {
        self.file_path@
    }

    /// Creates a new `PersistentFile` instance that represents a file on
    /// the filesystem. Nothing is opened or created yet.
    #[must_use]
    pub fn new(file_path: &str) -> (r: Self)
        ensures
            r.path_text() == file_path@,
    {
        PersistentFile { file_path: String::from_str(file_path) }
    }

    /// The path of the file.
    pub fn path(&self) -> (r: &str)
        ensures
            r@ == self.path_text(),
    {
        self.file_path.as_str()
    }
}

} // verus!
