//! Media-type resolution: a pure function from the declared file name to the
//! media type recorded for an upload.
//!
//! The type is derived from the name's extension alone — never by sniffing
//! the byte content — with a plain-text fallback when the extension is
//! unrecognized.

use vstd::prelude::*;

verus! {

/// What the extension table answers for a file name: the first guessed media
/// type for its extension, or the generic binary type when nothing is
/// recognized.  The table is fixed at compile time, so this is a function of
/// the name alone.
pub uninterp spec fn guessed_media_type(name: Seq<char>) -> Seq<char>;

/// Relies on mime_guess::from_path with MimeGuess::first_or_octet_stream (a
/// fixed extension-table lookup, falling back to application/octet-stream)
/// and Mime::essence_str (the type without optional parameters).
#[verifier::external_body]
fn guess_media_type(file_name: &str) -> (r: String)
    ensures
        r@ == guessed_media_type(file_name@),
{
    mime_guess::from_path(file_name).first_or_octet_stream().essence_str().to_owned()
}

/// The media type recorded for an uploaded item, guessed from the declared
/// file name; an item that declares no name is treated as named `DEFAULT`,
/// whose missing extension makes the guess fall back to the generic binary
/// type.
pub fn resolve_media_type(file_name: &Option<String>) -> (r: String)
    ensures
        (match *file_name {
            Some(n) => r@ == guessed_media_type(n@),
            None => r@ == guessed_media_type("DEFAULT"@),
        }),
{
    match file_name {
        Some(name) => guess_media_type(name.as_str()),
        None => guess_media_type("DEFAULT"),
    }
}

} // verus!
