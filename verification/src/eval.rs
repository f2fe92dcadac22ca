//! The directive evaluator: builds the request sequence from the extracted
//! arguments, resolves it against the ambient state, and emits the command
//! sequence that installs the resolved alignment, scoped to a nested layout
//! pass when a body is supplied.

use vstd::prelude::*;

use crate::diag::LayoutContext;
use crate::model::{LayoutAlign, SpecAlign, SpecAxis, Spanned};
use crate::resolve::{dedup_aligns, resolved, resolved_diags};

verus! {

/// A command for the layout execution pipeline.
#[derive(Clone, Copy, Debug, PartialEq, Eq)]
pub enum Command<T> {
    /// Install the given alignment as the ambient state.
    SetAlignment(LayoutAlign),
    /// Lay out the given content tree under the ambient state.
    LayoutSyntaxTree(T),
}

/// The request a positional argument contributes: its intrinsic axis when it
/// has one, an axis-unknown request for a bare center.
pub open spec fn positional_request(
    arg: Option<Spanned<SpecAlign>>,
) -> Seq<(Option<SpecAxis>, Spanned<SpecAlign>)> {
    match arg {
        Some(a) => seq![(a.v.spec_axis(), a)],
        None => Seq::<(Option<SpecAxis>, Spanned<SpecAlign>)>::empty(),
    }
}

/// The request a keyword argument contributes: its axis is the named one.
pub open spec fn keyword_request(
    axis: SpecAxis,
    arg: Option<Spanned<SpecAlign>>,
) -> Seq<(Option<SpecAxis>, Spanned<SpecAlign>)> {
    match arg {
        Some(a) => seq![(Some(axis), a)],
        None => Seq::<(Option<SpecAxis>, Spanned<SpecAlign>)>::empty(),
    }
}

/// The request sequence the directive resolves, in its fixed order: first
/// positional, second positional, horizontal keyword, vertical keyword.
pub open spec fn align_requests(
    first: Option<Spanned<SpecAlign>>,
    second: Option<Spanned<SpecAlign>>,
    hor: Option<Spanned<SpecAlign>>,
    ver: Option<Spanned<SpecAlign>>,
) -> Seq<(Option<SpecAxis>, Spanned<SpecAlign>)> {
    positional_request(first) + positional_request(second) + keyword_request(
        SpecAxis::Horizontal,
        hor,
    ) + keyword_request(SpecAxis::Vertical, ver)
}

/// The command sequence the directive emits: with a body, the new alignment
/// is scoped to laying the body out and the previous value is restored
/// afterwards; without one, the new alignment persists.
pub open spec fn align_commands<T>(
    body: Option<T>,
    new: LayoutAlign,
    prev: LayoutAlign,
) -> Seq<Command<T>> {
    match body {
        Some(tree) => seq![
            Command::SetAlignment(new),
            Command::LayoutSyntaxTree(tree),
            Command::SetAlignment(prev),
        ],
        None => seq![Command::SetAlignment(new)],
    }
}

/// Evaluate the align directive over its already extracted arguments: up to
/// two positional alignment values, the `horizontal` and `vertical` keyword
/// values, and an optional content tree to lay out under the new alignment.
///
/// The resolved alignment is computed against the context's current state;
/// conflicting requests are reported into the context's sink and dropped.
/// The evaluator mutates ambient state only through the emitted commands.
pub fn align<T>(
    body: Option<T>,
    first: Option<Spanned<SpecAlign>>,
    second: Option<Spanned<SpecAlign>>,
    hor: Option<Spanned<SpecAlign>>,
    ver: Option<Spanned<SpecAlign>>,
    ctx: &mut LayoutContext,
) -> (cmds: Vec<Command<T>>)
    ensures
        final(ctx).state == old(ctx).state,
        final(ctx).feedback.diags@ == old(ctx).feedback.diags@ + resolved_diags(
            old(ctx).state.align,
            old(ctx).state.sys,
            align_requests(first, second, hor, ver),
        ),
        cmds@ == align_commands(
            body,
            resolved(
                old(ctx).state.align,
                old(ctx).state.sys,
                align_requests(first, second, hor, ver),
            ),
            old(ctx).state.align,
        ),
{
    let mut requests: Vec<(Option<SpecAxis>, Spanned<SpecAlign>)> = Vec::new();
    if let Some(a) = first {
        requests.push((a.v.axis(), a));
    }
    if let Some(a) = second {
        requests.push((a.v.axis(), a));
    }
    if let Some(a) = hor {
        requests.push((Some(SpecAxis::Horizontal), a));
    }
    if let Some(a) = ver {
        requests.push((Some(SpecAxis::Vertical), a));
    }
    assert(requests@ =~= align_requests(first, second, hor, ver));

    let prev = ctx.state.align;
    let aligns = dedup_aligns(ctx, &requests);

    let mut cmds: Vec<Command<T>> = Vec::new();
    match body {
        Some(tree) => {
            cmds.push(Command::SetAlignment(aligns));
            cmds.push(Command::LayoutSyntaxTree(tree));
            cmds.push(Command::SetAlignment(prev));
        },
        None => {
            cmds.push(Command::SetAlignment(aligns));
        },
    }
    assert(cmds@ =~= align_commands(
        body,
        resolved(prev, old(ctx).state.sys, align_requests(first, second, hor, ver)),
        prev,
    ));
    cmds
}

} // verus!
