//! What can go wrong, by kind, with the text shown to the user.

use vstd::prelude::*;

verus! {

/// The families of failure.
#[derive(Clone, Copy, Debug, PartialEq, Eq, Structural)]
pub enum ErrorClass {
    /// The connection, the request or the response failed.
    Network,
    /// A file that was fetched or unpacked holds nothing.
    Integrity,
    /// The archive cannot be read or lacks a member.
    Archive,
    /// A rename of the backup-and-replace protocol failed.
    Install,
    /// A rollback found nothing to restore or could not restore it.
    Rollback,
    /// The request names an unknown tool or an unusable path.
    Config,
}

/// What went wrong.
#[derive(Clone, Copy, Debug, PartialEq, Eq, Structural)]
pub enum ErrorKind {
    /// The tool identifier is not in the table.
    UnknownTool,
    /// The path names no file.
    InvalidPath,
    /// The directory to install into does not exist.
    MissingDirectory,
    /// The file handed in by the user is missing, not a file or misnamed.
    UnusableSource,
    /// The request failed or the server answered with an error status.
    Network,
    /// The answer of the release service names no download that fits.
    ReleaseLookup,
    /// The staging file could not be written.
    StagingFailed,
    /// The download left an empty file.
    EmptyDownload,
    /// An archive member or a copied file is empty.
    EmptyFile,
    /// The archive could not be opened or decoded.
    UnreadableArchive,
    /// Not every wanted member was found in the archive.
    MissingMembers,
    /// The live file could not be moved to its backup; it is untouched.
    BackupFailed,
    /// The staging file could not be moved into place; what stood there
    /// before, if anything, stands there again.
    ActivationFailed,
    /// The staging file could not be moved into place and the previous file
    /// could not be put back: no live file is left, its content is in the
    /// backup.
    ActivationUnrecovered,
    /// No backup was found for any binary of the tool.
    NoBackupsFound,
    /// The live file could not be moved aside; nothing was changed.
    MoveAsideFailed,
    /// The backup could not be moved into place.
    RestoreFailed,
}

impl ErrorKind {
    /// The family of this kind.
    pub open spec fn class_of(self) -> ErrorClass {
        match self {
            ErrorKind::UnknownTool => ErrorClass::Config,
            ErrorKind::InvalidPath => ErrorClass::Config,
            ErrorKind::MissingDirectory => ErrorClass::Config,
            ErrorKind::UnusableSource => ErrorClass::Config,
            ErrorKind::Network => ErrorClass::Network,
            ErrorKind::ReleaseLookup => ErrorClass::Network,
            ErrorKind::StagingFailed => ErrorClass::Network,
            ErrorKind::EmptyDownload => ErrorClass::Integrity,
            ErrorKind::EmptyFile => ErrorClass::Integrity,
            ErrorKind::UnreadableArchive => ErrorClass::Archive,
            ErrorKind::MissingMembers => ErrorClass::Archive,
            ErrorKind::BackupFailed => ErrorClass::Install,
            ErrorKind::ActivationFailed => ErrorClass::Install,
            ErrorKind::ActivationUnrecovered => ErrorClass::Install,
            ErrorKind::NoBackupsFound => ErrorClass::Rollback,
            ErrorKind::MoveAsideFailed => ErrorClass::Rollback,
            ErrorKind::RestoreFailed => ErrorClass::Rollback,
        }
    }

    /// The family of this kind.
    pub fn class(self) -> (c: ErrorClass)
        ensures
            c == self.class_of(),
    {
        match self {
            ErrorKind::UnknownTool => ErrorClass::Config,
            ErrorKind::InvalidPath => ErrorClass::Config,
            ErrorKind::MissingDirectory => ErrorClass::Config,
            ErrorKind::UnusableSource => ErrorClass::Config,
            ErrorKind::Network => ErrorClass::Network,
            ErrorKind::ReleaseLookup => ErrorClass::Network,
            ErrorKind::StagingFailed => ErrorClass::Network,
            ErrorKind::EmptyDownload => ErrorClass::Integrity,
            ErrorKind::EmptyFile => ErrorClass::Integrity,
            ErrorKind::UnreadableArchive => ErrorClass::Archive,
            ErrorKind::MissingMembers => ErrorClass::Archive,
            ErrorKind::BackupFailed => ErrorClass::Install,
            ErrorKind::ActivationFailed => ErrorClass::Install,
            ErrorKind::ActivationUnrecovered => ErrorClass::Install,
            ErrorKind::NoBackupsFound => ErrorClass::Rollback,
            ErrorKind::MoveAsideFailed => ErrorClass::Rollback,
            ErrorKind::RestoreFailed => ErrorClass::Rollback,
        }
    }
}

/// A failure of the engine: its kind and the text for the user.
#[derive(Debug)]
pub struct EngineError {
    pub kind: ErrorKind,
    pub message: String,
}

/// A failure as a value of the model.
pub ghost struct Failure {
    pub kind: ErrorKind,
    pub message: Seq<char>,
}

impl View for EngineError {
    type V = Failure;

    open spec fn view(&self) -> Failure {
        Failure { kind: self.kind, message: self.message@ }
    }
}

impl EngineError {
    /// A failure of kind `kind` with the text `message`.
    pub fn new(kind: ErrorKind, message: String) -> (e: EngineError)
        ensures
            e@ == (Failure { kind, message: message@ }),
    {
        EngineError { kind, message }
    }

    /// The text for the user.
    pub fn to_text(&self) -> (s: String)
        ensures
            s@ == self@.message,
    {
        self.message.clone()
    }
}

} // verus!
