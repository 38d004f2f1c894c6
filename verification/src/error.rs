//! The errors that end a run.

use vstd::prelude::*;

verus! {

/// Why a run of the initializer or of the entry writer stopped. Every one of
/// them ends the run: nothing is retried and nothing is rolled back.
#[derive(Clone, Copy, Debug, PartialEq, Eq, Structural)]
pub enum DiaryError {
    /// The settings file is missing or cannot be read.
    ConfigNotFound,
    /// The settings file is not a settings document, or lacks a field.
    ConfigInvalid,
    /// The workspace directory or the settings file is already there.
    WorkspaceAlreadyExists,
    /// The entry of that day was written before.
    EntryAlreadyExists,
    /// A file of a fresh workspace was already there.
    FileAlreadyExists,
    /// A directory could not be created.
    DirectoryCreateFailure,
    /// A file could not be created or written.
    FileWriteFailure,
}

impl DiaryError {
    /// Whether the error reports a failure of the disk itself, as opposed to
    /// a rule of the tool.
    pub open spec fn io_failure(self) -> bool {
        self == DiaryError::DirectoryCreateFailure || self == DiaryError::FileWriteFailure
    }

    /// The line that tells the user why the run stopped.
    pub open spec fn message(self) -> Seq<char> {
        match self {
            DiaryError::ConfigNotFound => "not ok: diary-cli.yaml is missing or cannot be read"@,
            DiaryError::ConfigInvalid => "not ok: diary-cli.yaml is not a valid settings file"@,
            DiaryError::WorkspaceAlreadyExists => "not ok: diary or diary-cli.yaml exists"@,
            DiaryError::EntryAlreadyExists => "not ok: the entry of this day exists"@,
            DiaryError::FileAlreadyExists => "not ok: a file of the workspace exists"@,
            DiaryError::DirectoryCreateFailure => "not ok: a directory cannot be created"@,
            DiaryError::FileWriteFailure => "not ok: a file cannot be written"@,
        }
    }

    /// The line that tells the user why the run stopped.
    pub fn describe(&self) -> (r: &'static str)
        ensures
            r@ == self.message(),
    {
        match self {
            DiaryError::ConfigNotFound => "not ok: diary-cli.yaml is missing or cannot be read",
            DiaryError::ConfigInvalid => "not ok: diary-cli.yaml is not a valid settings file",
            DiaryError::WorkspaceAlreadyExists => "not ok: diary or diary-cli.yaml exists",
            DiaryError::EntryAlreadyExists => "not ok: the entry of this day exists",
            DiaryError::FileAlreadyExists => "not ok: a file of the workspace exists",
            DiaryError::DirectoryCreateFailure => "not ok: a directory cannot be created",
            DiaryError::FileWriteFailure => "not ok: a file cannot be written",
        }
    }

    /// Tells failures of the disk from refusals by the tool's own rules.
    pub fn is_io_failure(&self) -> (r: bool)
        ensures
            r == self.io_failure(),
    {
        match self {
            DiaryError::DirectoryCreateFailure => true,
            DiaryError::FileWriteFailure => true,
            _ => false,
        }
    }
}

} // verus!
