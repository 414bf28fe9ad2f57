//! The identity of a scoped temporary file, and what is decided when it is
//! opened and when its scope ends.

use crate::naming::{lemma_physical_name_injective, physical_name, physical_name_of};
use crate::random::{is_suffix, random_suffix};
use vstd::prelude::*;

verus! {

/// How the file behind a temporary file is opened.
#[derive(Clone, Copy, Debug, PartialEq, Eq, Structural)]
pub struct OpenMode {
    /// Create the file where it does not exist yet.
    pub create: bool,
    /// Open it for reading.
    pub read: bool,
    /// Open it for writing.
    pub write: bool,
    /// Empty it where it exists already.
    pub truncate: bool,
}

/// A temporary file as its owner knows it: the name the owner chose, the
/// suffix drawn for it, and the name on disk made of the two.
///
/// The names are fixed when the value is made and never change.
#[derive(Debug)]
pub struct TestTempFile {
    filename: String,
    random_number: i32,
    final_filename: String,
}

impl TestTempFile {
    /// The name the owner chose.
    pub closed spec fn logical_name(&self) -> Seq<char> {
        self.filename@
    }

    /// The suffix drawn for this file.
    pub closed spec fn suffix(&self) -> int {
        self.random_number as int
    }

    /// The name of the file on disk.
    pub closed spec fn disk_name(&self) -> Seq<char> {
        self.final_filename@
    }

    /// What holds of every temporary file: its suffix is one, and its name on
    /// disk is the one made of its suffix and its logical name.
    #[verifier::type_invariant]
    pub closed spec fn well_formed(&self) -> bool {
        &&& is_suffix(self.random_number as int)
        &&& self.final_filename@ == physical_name_of(self.random_number as nat, self.filename@)
    }

    /// Puts a temporary file together from its logical name and its suffix.
    fn assemble(filename: String, random_number: i32) -> (file: TestTempFile)
        requires
            is_suffix(random_number as int),
        ensures
            file.logical_name() == filename@,
            file.suffix() == random_number,
            file.disk_name() == physical_name_of(random_number as nat, filename@),
    {
        let final_filename = physical_name(random_number as u32, filename.as_str());
        TestTempFile { filename, random_number, final_filename }
    }

    /// A temporary file named `filename`, with a freshly drawn suffix.
    pub fn new(filename: String) -> (file: TestTempFile)
        ensures
            file.logical_name() == filename@,
            is_suffix(file.suffix()),
            file.disk_name() == physical_name_of(file.suffix() as nat, filename@),
    {
        let random_number = random_suffix();
        Self::assemble(filename, random_number)
    }

    /// A temporary file named `filename` with the suffix `random_number`, for
    /// callers that bring their own source of suffixes. There is none where
    /// `random_number` is no suffix.
    pub fn with_suffix(filename: String, random_number: i32) -> (made: Option<TestTempFile>)
        ensures
            made.is_some() <==> is_suffix(random_number as int),
            made matches Some(file) ==> {
                &&& file.logical_name() == filename@
                &&& file.suffix() == random_number
                &&& file.disk_name() == physical_name_of(random_number as nat, filename@)
            },
    {
        if 0 <= random_number && random_number < i32::MAX {
            Some(Self::assemble(filename, random_number))
        } else {
            None
        }
    }

    /// The name the owner chose.
    pub fn filename(&self) -> (name: &str)
        ensures
            name@ == self.logical_name(),
    {
        self.filename.as_str()
    }

    /// The suffix drawn for this file.
    pub fn random_number(&self) -> (suffix: i32)
        ensures
            suffix == self.suffix(),
            is_suffix(suffix as int),
    {
        proof {
            use_type_invariant(self);
        }
        self.random_number
    }

    /// The name of the file on disk.
    pub fn final_filename(&self) -> (name: &str)
        ensures
            name@ == self.disk_name(),
            name@ == physical_name_of(self.suffix() as nat, self.logical_name()),
    {
        proof {
            use_type_invariant(self);
        }
        self.final_filename.as_str()
    }

    /// How the file is opened: created where it is missing, for reading and
    /// writing, and never emptied.
    pub fn open_mode() -> (mode: OpenMode)
        ensures
            mode == (OpenMode { create: true, read: true, write: true, truncate: false }),
    {
        OpenMode { create: true, read: true, write: true, truncate: false }
    }

    /// What to remove when the scope of this file ends: the file on disk where
    /// it is still `present`, nothing where it is gone already.
    pub fn removal_target(&self, present: bool) -> (target: Option<&str>)
        ensures
            present ==> target.is_some() && target.unwrap()@ == self.disk_name(),
            !present ==> target.is_none(),
    {
        if present {
            Some(self.final_filename.as_str())
        } else {
            None
        }
    }
}

/// Two temporary files with the same logical name lie under the same name on
/// disk exactly when the same suffix was drawn for both.
pub proof fn lemma_same_disk_name_iff_same_suffix(first: TestTempFile, second: TestTempFile)
    requires
        first.well_formed(),
        second.well_formed(),
        first.logical_name() == second.logical_name(),
    ensures
        first.disk_name() == second.disk_name() <==> first.suffix() == second.suffix(),
{
    lemma_physical_name_injective(
        first.suffix() as nat,
        first.logical_name(),
        second.suffix() as nat,
        second.logical_name(),
    );
}

/// Two temporary files lie under the same name on disk only when they have
/// the same logical name and the same suffix.
pub proof fn lemma_disk_name_determines_identity(first: TestTempFile, second: TestTempFile)
    requires
        first.well_formed(),
        second.well_formed(),
        first.disk_name() == second.disk_name(),
    ensures
        first.logical_name() == second.logical_name(),
        first.suffix() == second.suffix(),
{
    lemma_physical_name_injective(
        first.suffix() as nat,
        first.logical_name(),
        second.suffix() as nat,
        second.logical_name(),
    );
}

} // verus!
