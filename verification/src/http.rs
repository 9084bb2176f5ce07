//! Wording of HTTP status codes, as the HTTP client library gives it.

use vstd::prelude::*;

verus! {

/// The text that `reqwest::StatusCode` displays for the status code `code`:
/// the number followed by the code's canonical reason phrase.  The table of
/// reason phrases belongs to the HTTP library and is not restated here.
pub uninterp spec fn status_code_display(code: u16) -> Seq<char>;

/// Calls `reqwest::StatusCode::from_u16` and formats the status with its
/// `Display` impl.  Trusted: `from_u16` accepts exactly the codes from 100 to
/// 999, and for those the text is the one named by [`status_code_display`].
#[verifier::external_body]
pub(crate) fn status_code_text(code: u16) -> (text: Option<String>)
    ensures
        text is Some <==> 100 <= code <= 999,
        text matches Some(t) ==> t@ == status_code_display(code),
{
    match reqwest::StatusCode::from_u16(code) {
        Ok(status) => Some(status.to_string()),
        Err(_) => None,
    }
}

} // verus!
