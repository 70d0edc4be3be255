//! The error chain: anyhow's error type, modeled as its sequence of message layers.
use vstd::prelude::*;

verus! {

#[verifier::external_type_specification]
#[verifier::external_body]
pub struct ExError(anyhow::Error);

/// The messages of an error's cause chain, outermost first: the `Display` text of each
/// item that `anyhow::Error::chain` yields.
pub uninterp spec fn chain_of(e: anyhow::Error) -> Seq<Seq<char>>;

/// The separator between two layers of a flattened chain.
pub open spec fn layer_separator() -> Seq<char> {
    seq![':', ' ']
}

/// A chain rendered on one line: the layers joined by `": "`.
pub open spec fn flatten(c: Seq<Seq<char>>) -> Seq<char>
    decreases c.len(),
{
    if c.len() == 0 {
        Seq::empty()
    } else if c.len() == 1 {
        c[0]
    } else {
        c[0] + layer_separator() + flatten(c.drop_first())
    }
}

/// Relies on `anyhow::Error::msg`: an error whose one layer is the message.
#[verifier::external_body]
pub(crate) fn error_msg(m: String) -> (r: anyhow::Error)
    ensures
        chain_of(r) == seq![m@],
{
    anyhow::Error::msg(m)
}

/// Relies on `anyhow::Error::context`: the context becomes the outermost layer, above the
/// whole chain of `e`.
#[verifier::external_body]
pub(crate) fn add_context(e: anyhow::Error, c: String) -> (r: anyhow::Error)
    ensures
        chain_of(r) == seq![c@] + chain_of(e),
{
    e.context(c)
}

/// Relies on the alternate `Display` of `anyhow::Error`, which writes each layer of the
/// chain, separated by `": "`.
#[verifier::external_body]
pub(crate) fn render(e: &anyhow::Error) -> (r: String)
    ensures
        r@ == flatten(chain_of(*e)),
{
    format!("{:#}", e)
}

} // verus!
