//! Environment variable lookup: name checks, and the variable's name as context.
use vstd::prelude::*;
use crate::annotate::{context_layer, some_or_context};
use crate::chain::{add_context, chain_of, error_msg};
use crate::describe::{env_context, env_context_text};

verus! {

/// Relies on `str::contains` with a `char` pattern: whether the character occurs in `s`.
#[verifier::external_body]
fn contains_char(s: &str, c: char) -> (r: bool)
    ensures
        r == s@.contains(c),
{
    s.contains(c)
}

/// The first character, in the order `=` then NUL, that can never stand in the name of
/// an environment variable and that `key` holds.
pub open spec fn forbidden_in_key(key: Seq<char>) -> Option<char> {
    if key.contains('=') {
        Some('=')
    } else if key.contains('\0') {
        Some('\0')
    } else {
        None
    }
}

/// The root message of the failure for a name that holds `c`.
pub open spec fn forbidden_text(c: char) -> Seq<char> {
    if c == '=' {
        "environment variable contains '='"@
    } else {
        "environment variable contains '\\0'"@
    }
}

/// The root message of the failure for a variable that is not set.
pub open spec fn not_found_text() -> Seq<char> {
    "environment variable not found"@
}

/// Finds the forbidden character that `key` holds, if any.
pub fn forbidden_char(key: &str) -> (r: Option<char>)
    ensures
        r == forbidden_in_key(key@),
{
    if contains_char(key, '=') {
        Some('=')
    } else if contains_char(key, '\0') {
        Some('\0')
    } else {
        None
    }
}

/// Checks a variable name before any lookup: a name holding `=` or NUL is rejected, with
/// the name as context.
pub fn check_key(key: &str) -> (r: Result<(), anyhow::Error>)
    ensures
        r is Ok <==> forbidden_in_key(key@) is None,
        r is Err ==> chain_of(r->Err_0) == seq![
            env_context_text(key@),
            forbidden_text(forbidden_in_key(key@)->Some_0),
        ],
{
    match forbidden_char(key) {
        None => Ok(()),
        Some(c) => {
            let m = if c == '=' {
                "environment variable contains '='"
            } else {
                "environment variable contains '\\0'"
            };
            let e = add_context(error_msg(m.to_owned()), env_context(key));
            assert(seq![env_context_text(key@)] + seq![m@] =~= seq![
                env_context_text(key@),
                forbidden_text(c),
            ]);
            Err(e)
        },
    }
}

/// The outcome of looking up a variable whose absence is a failure: an unset variable
/// fails with the name as context.
pub fn var_os_found<T>(key: &str, found: Option<T>) -> (r: Result<T, anyhow::Error>)
    ensures
        found is Some ==> r == Ok::<T, anyhow::Error>(found->Some_0),
        found is None ==> r is Err && chain_of(r->Err_0) == seq![
            env_context_text(key@),
            not_found_text(),
        ],
{
    some_or_context(found, "environment variable not found", env_context(key))
}

/// The outcome of a lookup that fails on its own terms: a failure gets the name as its
/// context layer.
pub fn var_result<T>(key: &str, r: Result<T, anyhow::Error>) -> (out: Result<T, anyhow::Error>)
    ensures
        r is Ok ==> out == r,
        r is Err ==> out is Err && chain_of(out->Err_0) == seq![env_context_text(key@)]
            + chain_of(r->Err_0),
{
    context_layer(r, env_context(key))
}

} // verus!
