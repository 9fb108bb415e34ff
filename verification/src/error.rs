//! The failures a command can report to the UI.

use crate::path::PathError;
use vstd::prelude::*;

verus! {

/// What a command reports when it fails. A failure stays local to the command
/// that met it, and reaches the UI as the text of [`CommandError::message`].
#[derive(Debug, PartialEq, Eq)]
pub enum CommandError {
    /// The path was turned down before any file was touched.
    InvalidPath(PathError),
    /// Reading or writing the file failed.
    Io(String),
    /// The operating system refused to start the watch.
    WatchStart(String),
    /// The window refused the operation.
    Window(String),
    /// The shared state could not be locked.
    LockAcquisition(String),
}

impl PathError {
    /// The text shown for this error.
    pub open spec fn message_text(self) -> Seq<char> {
        match self {
            PathError::InvalidPath => "Path traversal not allowed"@,
            PathError::UnsupportedExtension => "Only .md / .markdown files are allowed"@,
        }
    }

    /// The text shown for this error.
    pub fn message(&self) -> (text: &'static str)
        ensures
            text@ == self.message_text(),
    {
        match self {
            PathError::InvalidPath => "Path traversal not allowed",
            PathError::UnsupportedExtension => "Only .md / .markdown files are allowed",
        }
    }
}

impl CommandError {
    /// The text shown for this error: a fixed sentence for a path that was
    /// turned down, and otherwise the words of whoever refused.
    pub open spec fn message_text(self) -> Seq<char> {
        match self {
            CommandError::InvalidPath(reason) => reason.message_text(),
            CommandError::Io(text) => text@,
            CommandError::WatchStart(text) => text@,
            CommandError::Window(text) => text@,
            CommandError::LockAcquisition(text) => text@,
        }
    }

    /// The text shown for this error.
    pub fn message(&self) -> (text: String)
        ensures
            text@ == self.message_text(),
    {
        match self {
            CommandError::InvalidPath(reason) => reason.message().to_owned(),
            CommandError::Io(text) => text.clone(),
            CommandError::WatchStart(text) => text.clone(),
            CommandError::Window(text) => text.clone(),
            CommandError::LockAcquisition(text) => text.clone(),
        }
    }
}

} // verus!
