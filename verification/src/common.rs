//! The failures that the browser knows, and what it calls them on the screen.

use vstd::prelude::*;
use vstd::string::StringExecFns;

verus! {

/// The ways in which the browser's collaborators can fail.
#[derive(Clone, Copy, Debug, PartialEq, Eq, Structural)]
pub enum ErrorKind {
    /// A directory could not be read; its pane is shown empty.
    ListingFailed,
    /// A file could not be read; a placeholder is shown in its place.
    ContentUnreadable,
    /// The editor could not be started; the browser carries on.
    ProcessSpawnFailed,
    /// The root handed over at startup is no repository; the browser does not start.
    NotARepository,
}

impl ErrorKind {
    /// What the failure is called on the screen.
    pub open spec fn text(self) -> Seq<char> {
        match self {
            ErrorKind::ListingFailed => "Unable to read directory"@,
            ErrorKind::ContentUnreadable => "Unable to read file"@,
            ErrorKind::ProcessSpawnFailed => "Failed to open file in neovim"@,
            ErrorKind::NotARepository => "Not a git repository"@,
        }
    }

    /// What the failure is called on the screen, followed by a colon, a
    /// space and the path it concerns.
    pub open spec fn text_about(self, path: Seq<char>) -> Seq<char> {
        self.text() + ": "@ + path
    }

    /// What the failure is called on the screen.
    pub fn message(&self) -> (text: &'static str)
        ensures
            text@ == self.text(),
    {
        match self {
            ErrorKind::ListingFailed => "Unable to read directory",
            ErrorKind::ContentUnreadable => "Unable to read file",
            ErrorKind::ProcessSpawnFailed => "Failed to open file in neovim",
            ErrorKind::NotARepository => "Not a git repository",
        }
    }

    /// The failure's message with the path it concerns.
    pub fn describe(&self, path: &str) -> (text: String)
        ensures
            text@ == self.text_about(path@),
    {
        let mut text = self.message().to_owned();
        text.append(": ");
        text.append(path);
        text
    }

    /// Whether the browser keeps running after this failure.
    pub open spec fn recoverable(self) -> bool {
        self != ErrorKind::NotARepository
    }

    /// Whether the browser keeps running after this failure.
    pub fn is_recoverable(&self) -> (r: bool)
        ensures
            r == self.recoverable(),
    {
        match self {
            ErrorKind::NotARepository => false,
            _ => true,
        }
    }
}

} // verus!
