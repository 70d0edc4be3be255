//! UTF-8 checks on OS strings, with the string itself as context.
use vstd::prelude::*;
use vstd::utf8::{decode_utf8, valid_utf8};
use crate::chain::{add_context, chain_of, error_msg};
use crate::describe::{os_string_context, os_string_context_text};

verus! {

/// The text that `String::from_utf8_lossy` makes of some bytes: each invalid sequence
/// becomes U+FFFD.
pub uninterp spec fn lossy_of(b: Seq<u8>) -> Seq<char>;

/// Relies on `std::str::from_utf8`: the text, exactly when the bytes are valid UTF-8.
#[verifier::external_body]
fn utf8_text(b: &[u8]) -> (r: Option<&str>)
    ensures
        r is Some <==> valid_utf8(b@),
        r is Some ==> r->Some_0@ == decode_utf8(b@),
{
    std::str::from_utf8(b).ok()
}

/// Relies on `String::from_utf8_lossy`, which replaces invalid sequences by U+FFFD.
#[verifier::external_body]
fn lossy_text(b: &[u8]) -> (r: String)
    ensures
        r@ == lossy_of(b@),
{
    String::from_utf8_lossy(b).into_owned()
}

/// The root message of the failure for bytes that are not UTF-8.
pub open spec fn not_utf8_text() -> Seq<char> {
    "not valid utf8"@
}

/// Text access to an OS string that fails with the string as context.
pub trait OsStrAnyhow {
    /// The bytes of the OS string.
    spec fn os_bytes(&self) -> Seq<u8>;

    /// The string as UTF-8 text; bytes that are not UTF-8 fail with the (lossy, and where
    /// long, shortened) string as context.
    fn to_str_anyhow(&self) -> (r: Result<&str, anyhow::Error>)
        ensures
            r is Ok <==> valid_utf8(self.os_bytes()),
            r is Ok ==> r->Ok_0@ == decode_utf8(self.os_bytes()),
            r is Err ==> chain_of(r->Err_0) == seq![
                os_string_context_text(lossy_of(self.os_bytes())),
                not_utf8_text(),
            ],
    ;
}

impl OsStrAnyhow for [u8] {
    open spec fn os_bytes(&self) -> Seq<u8> {
        self@
    }

    fn to_str_anyhow(&self) -> (r: Result<&str, anyhow::Error>) {
        match utf8_text(self) {
            Some(s) => Ok(s),
            None => {
                let lossy = lossy_text(self);
                let ctx = os_string_context(lossy.as_str());
                let e = add_context(error_msg("not valid utf8".to_owned()), ctx);
                assert(seq![ctx@] + seq!["not valid utf8"@] =~= seq![ctx@, not_utf8_text()]);
                Err(e)
            },
        }
    }
}

} // verus!
