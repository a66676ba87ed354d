//! The failures that are reported to the caller instead of being absorbed.
use vstd::prelude::*;
use vstd::string::*;

verus! {

/// Why saving the start-up URL or navigating the primary window failed.
#[derive(Debug, PartialEq, Eq)]
pub enum ErrorKind {
    /// The platform did not name a configuration directory.
    ConfigDirUnavailable,
    /// Writing the configuration failed; the text says how.
    IoError(String),
    /// The primary window does not exist (any more).
    WindowNotFound,
}

impl ErrorKind {
    /// The text that the hosted page is shown for this failure.
    pub open spec fn message_text(self) -> Seq<char> {
        match self {
            ErrorKind::ConfigDirUnavailable => "Failed to resolve app config dir"@,
            ErrorKind::IoError(detail) => detail@,
            ErrorKind::WindowNotFound => "main window not found"@,
        }
    }

    /// The failure as a line of text.
    pub fn message(&self) -> (r: String)
        ensures
            r@ == self.message_text(),
    {
        match self {
            ErrorKind::ConfigDirUnavailable => String::from_str("Failed to resolve app config dir"),
            ErrorKind::IoError(detail) => detail.clone(),
            ErrorKind::WindowNotFound => String::from_str("main window not found"),
        }
    }
}

} // verus!
