//! The download of one release archive: where it lies, how long the server
//! says it is, and the bytes as they come in.

use crate::text::{chars_of, numeral_u64, parse_u64};
use crate::version::{format_spec, Version};
use http::header::{HeaderValue, ToStrError};
use vstd::prelude::*;

verus! {

/// What every archive address starts with, up to the version.
pub const ARCHIVE_BASE: &'static str =
    "https://download-installer.cdn.mozilla.net/pub/thunderbird/releases/";

/// What stands between the two places of the version in an archive address.
pub const ARCHIVE_PLATFORM: &'static str = "/linux-x86_64/en-US/thunderbird-";

/// What every archive address ends with.
pub const ARCHIVE_SUFFIX: &'static str = ".tar.bz2";

/// What the progress display says once the last byte has come in.
pub const DOWNLOAD_COMPLETE: &'static str = "Download complete.";

/// The value of one HTTP header, as the `http` crate holds it.
#[verifier::external_type_specification]
#[verifier::external_body]
pub struct ExHeaderValue(HeaderValue);

/// What `HeaderValue::to_str` fails with.
#[verifier::external_type_specification]
#[verifier::external_body]
pub struct ExToStrError(ToStrError);

/// The bytes that a header value holds.
pub uninterp spec fn header_bytes(value: HeaderValue) -> Seq<u8>;

/// `b` is a visible ASCII character, a blank or a tab.
pub open spec fn is_visible_ascii(b: u8) -> bool {
    (32 <= b < 127) || b == 9
}

/// Every byte of `bytes` is visible ASCII.
pub open spec fn all_visible_ascii(bytes: Seq<u8>) -> bool {
    forall|i: int| 0 <= i < bytes.len() ==> is_visible_ascii(#[trigger] bytes[i])
}

/// ASCII bytes as the characters that they encode.
pub open spec fn ascii_text(bytes: Seq<u8>) -> Seq<char> {
    Seq::new(bytes.len(), |i: int| bytes[i] as char)
}

/// The length that the text of a `Content-Length` value declares: the
/// number that it writes as an unsigned numeral in the range of `u64`.
pub open spec fn length_of_text(text: Seq<char>) -> Option<u64> {
    match numeral_u64(text) {
        Some(n) => Some(n as u64),
        None => None,
    }
}

/// The length that a `Content-Length` value of these bytes declares: the
/// bytes are visible ASCII, and their text declares it. Any other value
/// declares nothing.
pub open spec fn declared_length(bytes: Seq<u8>) -> Option<u64> {
    if all_visible_ascii(bytes) {
        length_of_text(ascii_text(bytes))
    } else {
        None
    }
}

/// The address of the archive of a version.
pub open spec fn archive_url_spec(t: (int, int, int)) -> Seq<char> {
    ARCHIVE_BASE@ + format_spec(t) + ARCHIVE_PLATFORM@ + format_spec(t) + ARCHIVE_SUFFIX@
}

/// Calls `HeaderValue::to_str`, which scans the value and gives it as text if
/// every byte is a visible ASCII character, a blank or a tab, and fails
/// otherwise. The text has one character for each byte.
#[verifier::external_body]
fn header_text<'a>(value: &'a HeaderValue) -> (text: Result<&'a str, ToStrError>)
    ensures
        text is Ok <==> all_visible_ascii(header_bytes(*value)),
        text matches Ok(t) ==> t@ == ascii_text(header_bytes(*value)),
{
    value.to_str()
}

/// The address from which the archive of `version` is fetched.
pub fn archive_url(version: &Version) -> (url: String)
    ensures
        url@ == archive_url_spec(version@),
{
    let name = version.to_string();
    let mut url = String::new();
    url.append(ARCHIVE_BASE);
    url.append(name.as_str());
    url.append(ARCHIVE_PLATFORM);
    url.append(name.as_str());
    url.append(ARCHIVE_SUFFIX);
    url
}

/// The length that the text of a `Content-Length` value declares, if it
/// declares one. Blanks are not trimmed.
pub fn length_from_text(text: &str) -> (total: Option<u64>)
    ensures
        total == length_of_text(text@),
{
    let chars = chars_of(text);
    parse_u64(&chars)
}

/// The total length that the server declared, from the `Content-Length`
/// header of its answer. Without the header, or with a value that is not an
/// unsigned numeral, the total is not known.
pub fn content_length(header: Option<&HeaderValue>) -> (total: Option<u64>)
    ensures
        total == match header {
            Some(value) => declared_length(header_bytes(*value)),
            None => None,
        },
{
    match header {
        None => None,
        Some(value) => match header_text(value) {
            Ok(text) => length_from_text(text),
            Err(_) => None,
        },
    }
}

/// A download under way: the declared total, if the server gave one, and
/// the bytes received so far, in the order in which they came.
pub struct Transfer {
    /// The length that the server declared, if it declared one.
    pub total: Option<u64>,
    /// The bytes received so far.
    pub body: Vec<u8>,
}

impl Transfer {
    /// A download of which nothing has come in yet.
    pub fn begin(header: Option<&HeaderValue>) -> (transfer: Transfer)
        ensures
            transfer.total == match header {
                Some(value) => declared_length(header_bytes(*value)),
                None => None,
            },
            transfer.body@ == Seq::<u8>::empty(),
    {
        Transfer { total: content_length(header), body: Vec::new() }
    }

    /// The number of bytes received so far.
    pub fn received(&self) -> (n: u64)
        ensures
            n == self.body@.len(),
    {
        self.body.len() as u64
    }

    /// Takes the next chunk of the body. Returns the number of bytes by
    /// which the progress display advances: the length of the chunk.
    pub fn accept(&mut self, chunk: &[u8]) -> (step: u64)
        ensures
            final(self).body@ == old(self).body@ + chunk@,
            final(self).total == old(self).total,
            step == chunk@.len(),
    {
        self.body.extend_from_slice(chunk);
        chunk.len() as u64
    }

    /// Ends the download and hands out the whole body.
    pub fn finish(self) -> (body: Vec<u8>)
        ensures
            body@ == self.body@,
    {
        self.body
    }
}

} // verus!
