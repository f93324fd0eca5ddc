//! The failures that a run can meet, which of them end it, and how each is
//! put in words.

use crate::extract::ExtractionError;
use vstd::prelude::*;

verus! {

/// What is said of a failure to reach a server.
pub const MSG_NETWORK: &'static str = "network error: the server could not be reached";

/// What is said of an index page without versions.
pub const MSG_PARSE: &'static str = "Could not parse version numbers";

/// What is said of a damaged bzip2 stream.
pub const MSG_DECOMPRESS: &'static str = "extraction error: the bzip2 stream is damaged";

/// What is said of a damaged tar archive.
pub const MSG_ARCHIVE: &'static str = "extraction error: the tar archive is damaged";

/// What is said of a member that leads out of the destination, before its
/// path.
pub const MSG_PATH_ESCAPE: &'static str =
    "extraction error: a path leads out of the destination directory: ";

/// What is said of a file that could not be written.
pub const MSG_WRITE: &'static str = "extraction error: a file could not be written";

/// What is said of a record that could not be read or written.
pub const MSG_CONFIG_IO: &'static str =
    "config error: the state file could not be read or written";

/// What is said of a launcher file that could not be created.
pub const MSG_LAUNCHER_IO: &'static str =
    "launcher error: the launcher file could not be written";

/// A failure of one of the parts of a run.
#[derive(Debug, Clone, PartialEq, Eq)]
pub enum UpdateError {
    /// The stored record could not be read or written.
    ConfigIo,
    /// A server could not be reached, or did not answer with success.
    Network,
    /// The index page lists no version.
    Parse,
    /// The archive could not be expanded.
    Extraction(ExtractionError),
    /// The launcher file could not be created.
    LauncherIo,
}

/// Bytes as text, with every part that is not UTF-8 replaced by the
/// replacement character.
pub uninterp spec fn utf8_lossy(bytes: Seq<u8>) -> Seq<char>;

/// How a failure is put in words.
pub open spec fn message_spec(error: UpdateError) -> Seq<char> {
    match error {
        UpdateError::ConfigIo => MSG_CONFIG_IO@,
        UpdateError::Network => MSG_NETWORK@,
        UpdateError::Parse => MSG_PARSE@,
        UpdateError::Extraction(ExtractionError::Decompress) => MSG_DECOMPRESS@,
        UpdateError::Extraction(ExtractionError::Archive) => MSG_ARCHIVE@,
        UpdateError::Extraction(ExtractionError::PathEscape(name)) => MSG_PATH_ESCAPE@
            + utf8_lossy(name@),
        UpdateError::Extraction(ExtractionError::Write) => MSG_WRITE@,
        UpdateError::LauncherIo => MSG_LAUNCHER_IO@,
    }
}

/// Calls `String::from_utf8_lossy`, which gives the bytes as text and puts
/// the replacement character for what is not UTF-8.
#[verifier::external_body]
fn lossy_text(bytes: &[u8]) -> (text: String)
    ensures
        text@ == utf8_lossy(bytes@),
{
    String::from_utf8_lossy(bytes).into_owned()
}

impl UpdateError {
    /// Whether the failure ends the run. Failures of the network, of
    /// discovery and of extraction do; those of the stored record and of the
    /// launcher file are reported and the run goes on.
    pub open spec fn fatal(self) -> bool {
        self is Network || self is Parse || self is Extraction
    }

    /// Whether the failure ends the run.
    pub fn is_fatal(&self) -> (fatal: bool)
        ensures
            fatal == self.fatal(),
    {
        match self {
            UpdateError::Network => true,
            UpdateError::Parse => true,
            UpdateError::Extraction(_) => true,
            UpdateError::ConfigIo => false,
            UpdateError::LauncherIo => false,
        }
    }

    /// The failure in words.
    pub fn message(&self) -> (text: String)
        ensures
            text@ == message_spec(*self),
    {
        match self {
            UpdateError::ConfigIo => String::from_str(MSG_CONFIG_IO),
            UpdateError::Network => String::from_str(MSG_NETWORK),
            UpdateError::Parse => String::from_str(MSG_PARSE),
            UpdateError::Extraction(ExtractionError::Decompress) => String::from_str(
                MSG_DECOMPRESS,
            ),
            UpdateError::Extraction(ExtractionError::Archive) => String::from_str(MSG_ARCHIVE),
            UpdateError::Extraction(ExtractionError::PathEscape(name)) => {
                let mut text = String::from_str(MSG_PATH_ESCAPE);
                let shown = lossy_text(name.as_slice());
                text.append(shown.as_str());
                text
            },
            UpdateError::Extraction(ExtractionError::Write) => String::from_str(MSG_WRITE),
            UpdateError::LauncherIo => String::from_str(MSG_LAUNCHER_IO),
        }
    }
}

} // verus!
