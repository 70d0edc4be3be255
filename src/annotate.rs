//! Result adapters: they attach context layers to failures and pass successes through.
use vstd::prelude::*;
use crate::chain::{add_context, chain_of, error_msg};

verus! {

/// Adds one context layer above a failure; a success passes through unchanged.
pub fn context_layer<T>(r: Result<T, anyhow::Error>, ctx: String) -> (out: Result<
    T,
    anyhow::Error,
>)
    ensures
        r is Ok ==> out == r,
        r is Err ==> out is Err && chain_of(out->Err_0) == seq![ctx@] + chain_of(r->Err_0),
{
    match r {
        Ok(v) => Ok(v),
        Err(e) => Err(add_context(e, ctx)),
    }
}

/// Adds two context layers above a failure, `outer` outermost; a success passes through
/// unchanged.
pub fn two_context_layers<T>(r: Result<T, anyhow::Error>, inner: String, outer: String) -> (out:
    Result<T, anyhow::Error>)
    ensures
        r is Ok ==> out == r,
        r is Err ==> out is Err && chain_of(out->Err_0) == seq![outer@, inner@] + chain_of(
            r->Err_0,
        ),
{
    match r {
        Ok(v) => Ok(v),
        Err(e) => {
            let e1 = add_context(e, inner);
            let e2 = add_context(e1, outer);
            assert(seq![outer@] + (seq![inner@] + chain_of(r->Err_0)) =~= seq![outer@, inner@]
                + chain_of(r->Err_0));
            Err(e2)
        },
    }
}

/// Turns an absent value into an error whose root is `missing`, with `ctx` above it; a
/// present value passes through unchanged.
pub fn some_or_context<T>(o: Option<T>, missing: &str, ctx: String) -> (out: Result<
    T,
    anyhow::Error,
>)
    ensures
        o is Some ==> out == Ok::<T, anyhow::Error>(o->Some_0),
        o is None ==> out is Err && chain_of(out->Err_0) == seq![ctx@, missing@],
{
    match o {
        Some(v) => Ok(v),
        None => {
            let e = add_context(error_msg(missing.to_owned()), ctx);
            assert(seq![ctx@] + seq![missing@] =~= seq![ctx@, missing@]);
            Err(e)
        },
    }
}

} // verus!
