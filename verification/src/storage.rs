//! The cloud storage at its boundary: what is handed to it and what is made
//! of what comes back.

use crate::text::{concat3, str_eq};
use vstd::prelude::*;
use vstd::utf8::{encode_utf8, valid_utf8};

verus! {

/// The folder as the storage wants it named: the root is the empty path,
/// every other folder its own path.
pub open spec fn folder_argument(path: Seq<char>) -> Seq<char> {
    if path == "/"@ {
        Seq::empty()
    } else {
        path
    }
}

/// Names a folder for the storage's listing.
pub fn folder_path(path: String) -> (r: String)
    ensures
        r@ == folder_argument(path@),
{
    if str_eq(path.as_str(), "/") {
        String::new()
    } else {
        path
    }
}

/// `String::from_utf8` from std: the text that the bytes encode in UTF-8, or
/// nothing where they are no UTF-8.
#[verifier::external_body]
pub(crate) fn string_from_utf8(bytes: Vec<u8>) -> (r: Option<String>)
    ensures
        r is Some <==> valid_utf8(bytes@),
        r is Some ==> encode_utf8(r->0@) == bytes@,
{
    String::from_utf8(bytes).ok()
}

/// What is told where a downloaded file is no text.
pub open spec fn not_text_message(path: Seq<char>) -> Seq<char> {
    "Could not convert downloaded bytes from file "@ + path + " to String"@
}

/// Reads a downloaded file as text: the bytes must be UTF-8.
pub fn text_of_download(path: &str, bytes: Vec<u8>) -> (r: Result<String, String>)
    ensures
        r is Ok <==> valid_utf8(bytes@),
        r is Ok ==> encode_utf8(r->Ok_0@) == bytes@,
        r is Err ==> r->Err_0@ == not_text_message(path@),
{
    match string_from_utf8(bytes) {
        Some(text) => Ok(text),
        None => Err(
            concat3("Could not convert downloaded bytes from file ", path, " to String"),
        ),
    }
}

} // verus!
