//! Context for path operations: the path, and for binary operations the second operand.
use vstd::prelude::*;
use crate::annotate::{context_layer, some_or_context, two_context_layers};
use crate::chain::chain_of;
use crate::describe::{
    operand_context,
    operand_context_text,
    path_context,
    path_context_text,
    writing_context,
    writing_context_text,
};

verus! {

/// A part of a path whose extraction may find nothing.
#[derive(Clone, Copy, Debug, PartialEq, Eq, Structural)]
pub enum Component {
    /// The whole path as UTF-8 text.
    Utf8,
    /// The parent directory.
    Parent,
    /// The final component.
    FileName,
    /// The final component without its extension.
    FileStem,
    /// The extension of the final component.
    Extension,
}

/// The root message of the failure when a component is absent.
pub open spec fn missing_text(c: Component) -> Seq<char> {
    match c {
        Component::Utf8 => "invalid UTF8"@,
        Component::Parent => "expected parent directory"@,
        Component::FileName => "missing expected filename"@,
        Component::FileStem => "missing expected filename"@,
        Component::Extension => "missing expected extension"@,
    }
}

/// The root message of the failure when `c` is absent.
pub fn missing_message(c: Component) -> (r: &'static str)
    ensures
        r@ == missing_text(c),
{
    match c {
        Component::Utf8 => "invalid UTF8",
        Component::Parent => "expected parent directory",
        Component::FileName => "missing expected filename",
        Component::FileStem => "missing expected filename",
        Component::Extension => "missing expected extension",
    }
}

/// Requires a component that was extracted from a path: an absent one fails with the
/// component's message under the path's context layer.
pub fn path_component<T>(o: Option<T>, which: Component, path_debug: &str) -> (out: Result<
    T,
    anyhow::Error,
>)
    ensures
        o is Some ==> out == Ok::<T, anyhow::Error>(o->Some_0),
        o is None ==> out is Err && chain_of(out->Err_0) == seq![
            path_context_text(path_debug@),
            missing_text(which),
        ],
{
    some_or_context(o, missing_message(which), path_context(path_debug))
}

/// Annotates the outcome of an operation on one path: a failure gets the path's context
/// layer above its own chain.
pub fn path_result<T>(r: Result<T, anyhow::Error>, path_debug: &str) -> (out: Result<
    T,
    anyhow::Error,
>)
    ensures
        r is Ok ==> out == r,
        r is Err ==> out is Err && chain_of(out->Err_0) == seq![path_context_text(path_debug@)]
            + chain_of(r->Err_0),
{
    context_layer(r, path_context(path_debug))
}

/// Annotates the outcome of an operation on a path and a second operand: the path's
/// layer outermost, the operand's layer below it, above the operation's own failure.
pub fn path_operand_result<T>(
    r: Result<T, anyhow::Error>,
    operand: &str,
    operand_debug: &str,
    path_debug: &str,
) -> (out: Result<T, anyhow::Error>)
    ensures
        r is Ok ==> out == r,
        r is Err ==> out is Err && chain_of(out->Err_0) == seq![
            path_context_text(path_debug@),
            operand_context_text(operand@, operand_debug@),
        ] + chain_of(r->Err_0),
{
    two_context_layers(r, operand_context(operand, operand_debug), path_context(path_debug))
}

/// Annotates the outcome of writing to a path: a failure gets the write's context layer
/// above its own chain.
pub fn write_result<T>(r: Result<T, anyhow::Error>, path_debug: &str) -> (out: Result<
    T,
    anyhow::Error,
>)
    ensures
        r is Ok ==> out == r,
        r is Err ==> out is Err && chain_of(out->Err_0) == seq![writing_context_text(path_debug@)]
            + chain_of(r->Err_0),
{
    context_layer(r, writing_context(path_debug))
}

} // verus!
