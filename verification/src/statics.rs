//! Static files: which file answers a request, and with which content type.

use crate::text::chars_of;
use vstd::prelude::*;
use vstd::string::*;

verus! {

/// The content type that goes with the file extension `extension`, written without its
/// dot; the type of arbitrary bytes where the extension is not known.
pub uninterp spec fn guessed_type(extension: Seq<char>) -> Seq<char>;

/// Looks the extension up with `mime_guess::from_ext` and takes the first type found, or
/// `application/octet-stream` (`MimeGuess::first_or_octet_stream`). The contract only names
/// the result: the same extension always gives the same answer.
#[verifier::external_body]
fn guess_type(extension: &str) -> (mime: String)
    ensures
        mime@ == guessed_type(extension@),
{
    let mime = mime_guess::from_ext(extension).first_or_octet_stream();
    let text: &str = mime.as_ref();
    text.to_string()
}

/// The content type of a file by its extension; the type of arbitrary bytes for a file
/// without extension.
pub open spec fn content_type_of(extension: Option<Seq<char>>) -> Seq<char> {
    match extension {
        Some(known) => guessed_type(known),
        None => "application/octet-stream"@,
    }
}

/// Gives the content type of a file by its extension.
pub fn content_type(extension: Option<&str>) -> (mime: String)
    ensures
        mime@ == content_type_of(
            match extension {
                Some(known) => Some(known@),
                None => None,
            },
        ),
{
    match extension {
        Some(known) => guess_type(known),
        None => String::from_str("application/octet-stream"),
    }
}

/// A request is answered with the index of a directory where its path ends in a slash, or
/// names a directory.
pub open spec fn wants_index(path: Seq<char>, names_directory: bool) -> bool {
    (path.len() > 0 && path.last() == '/') || names_directory
}

/// Whether the request for `path` is answered with the index of a directory.
pub fn serves_index(path: &str, names_directory: bool) -> (index: bool)
    ensures
        index == wants_index(path@, names_directory),
{
    let chars = chars_of(path);
    (chars.len() > 0 && chars[chars.len() - 1] == '/') || names_directory
}

} // verus!
