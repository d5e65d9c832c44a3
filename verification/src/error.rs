//! The kinds of failure that end the polling process.

use vstd::prelude::*;

verus! {

/// Why the polling process gave up. Every kind is fatal: nothing is retried
/// and no later cycle runs.
#[derive(Clone, Copy, Debug, PartialEq, Eq, Hash, Structural)]
pub enum ErrorKind {
    /// A collaborator did not deliver: the fetch failed, or the remote
    /// document lacked the expected structure.
    Retrieval,
    /// A slot could not be read when its stored text was required.
    StorageRead,
    /// A slot could not be overwritten.
    StorageWrite,
    /// A required configuration value is absent.
    Configuration,
}

impl ErrorKind {
    /// The diagnostic that names the failing operation.
    pub open spec fn diagnostic_text(self) -> Seq<char> {
        match self {
            ErrorKind::Retrieval => "could not fetch the forecast"@,
            ErrorKind::StorageRead => "could not read the stored forecast"@,
            ErrorKind::StorageWrite => "could not write the forecast"@,
            ErrorKind::Configuration => "the notification endpoint is not configured"@,
        }
    }

    /// The diagnostic to show when the process terminates with this error.
    pub fn diagnostic(&self) -> (message: &'static str)
        ensures
            message@ == self.diagnostic_text(),
    {
        match self {
            ErrorKind::Retrieval => "could not fetch the forecast",
            ErrorKind::StorageRead => "could not read the stored forecast",
            ErrorKind::StorageWrite => "could not write the forecast",
            ErrorKind::Configuration => "the notification endpoint is not configured",
        }
    }
}

} // verus!
