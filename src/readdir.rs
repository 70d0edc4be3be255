//! Context for directory listings: each failed step names the directory being listed.
use vstd::prelude::*;
use crate::annotate::context_layer;
use crate::chain::chain_of;
use crate::describe::{directory_context, directory_context_text};

verus! {

/// Annotates one step of a directory listing: the end of the listing stays the end, an
/// entry passes through unchanged, and a failure gets the directory's context layer above
/// its own chain.
pub fn wrap_read_dir_item<T>(path_debug: &str, item: Option<Result<T, anyhow::Error>>) -> (out:
    Option<Result<T, anyhow::Error>>)
    ensures
        item is None <==> out is None,
        item matches Some(Ok(v)) ==> out == Some(Ok::<T, anyhow::Error>(v)),
        item matches Some(Err(e0)) ==> (out matches Some(Err(e)) && chain_of(e) == seq![
            directory_context_text(path_debug@),
        ] + chain_of(e0)),
{
    match item {
        None => None,
        Some(r) => Some(context_layer(r, directory_context(path_debug))),
    }
}

} // verus!
