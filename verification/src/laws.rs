//! The laws of alignment resolution, each stated over the spec functions the
//! resolver's and the evaluator's contracts use and proved once and for all.

use vstd::prelude::*;

use crate::diag::{Diag, DiagKind};
use crate::eval::{align_commands, align_requests, Command};
use crate::model::{GenAlign, LayoutAlign, LayoutSystem, Span, SpecAlign, SpecAxis, Spanned};
use crate::resolve::{init_state, resolved, resolved_diags, run, step};

verus! {

/// The request a bare positional center contributes: its axis is unknown.
pub open spec fn bare_center(span: Span) -> (Option<SpecAxis>, Spanned<SpecAlign>) {
    (None, Spanned { v: SpecAlign::Center, span })
}

/// A request whose axis is known.
pub open spec fn with_axis(
    axis: SpecAxis,
    value: SpecAlign,
    span: Span,
) -> (Option<SpecAxis>, Spanned<SpecAlign>) {
    (Some(axis), Spanned { v: value, span })
}

/// Whether a request's value fits the axis it names: a bare center fits any
/// axis, a directional value only its intrinsic one.
pub open spec fn fits_axis(value: SpecAlign, axis: SpecAxis) -> bool {
    value.spec_axis() is None || value.spec_axis() == Some(axis)
}

/// A single bare center request with no others centers the primary axis and
/// leaves the secondary axis at its previous value, without diagnostics.
pub proof fn center_defaults_to_primary(prev: LayoutAlign, sys: LayoutSystem, span: Span)
    ensures
        resolved(prev, sys, seq![bare_center(span)]) == (LayoutAlign {
            primary: GenAlign::Center,
            secondary: prev.secondary,
        }),
        resolved_diags(prev, sys, seq![bare_center(span)]) == Seq::<Diag>::empty(),
{
    let reqs = seq![bare_center(span)];
    let st0 = init_state(prev);
    let s1 = step(st0, sys, None, SpecAlign::Center, span);
    assert(reqs.drop_first() =~= Seq::<(Option<SpecAxis>, Spanned<SpecAlign>)>::empty());
    assert(run(s1.0, sys, reqs.drop_first()).0 == s1.0);
    assert(run(st0, sys, reqs).0 == s1.0);
    assert(resolved_diags(prev, sys, reqs) =~= Seq::<Diag>::empty());
}

/// Two bare center requests center both axes, whatever the previous value,
/// without diagnostics.
pub proof fn double_center_centers_both(
    prev: LayoutAlign,
    sys: LayoutSystem,
    span1: Span,
    span2: Span,
)
    ensures
        resolved(prev, sys, seq![bare_center(span1), bare_center(span2)]) == (LayoutAlign {
            primary: GenAlign::Center,
            secondary: GenAlign::Center,
        }),
        resolved_diags(prev, sys, seq![bare_center(span1), bare_center(span2)]) == Seq::<
            Diag,
        >::empty(),
{
    let reqs = seq![bare_center(span1), bare_center(span2)];
    let st0 = init_state(prev);
    let s1 = step(st0, sys, None, SpecAlign::Center, span1);
    let s2 = step(s1.0, sys, None, SpecAlign::Center, span2);
    assert(reqs.drop_first() =~= seq![bare_center(span2)]);
    assert(reqs.drop_first().drop_first() =~= Seq::<
        (Option<SpecAxis>, Spanned<SpecAlign>),
    >::empty());
    assert(run(s2.0, sys, reqs.drop_first().drop_first()).0 == s2.0);
    assert(run(s1.0, sys, reqs.drop_first()).0 == s2.0);
    assert(run(st0, sys, reqs).0 == s2.0);
    assert(resolved_diags(prev, sys, reqs) =~= Seq::<Diag>::empty());
}

/// A bare center followed by one explicit, well-axed request sets the
/// explicit generic axis as requested and centers the other one, without
/// diagnostics.
pub proof fn center_pairs_with_explicit(
    prev: LayoutAlign,
    sys: LayoutSystem,
    span1: Span,
    span2: Span,
    axis: SpecAxis,
    value: SpecAlign,
)
    requires
        fits_axis(value, axis),
    ensures
        resolved(prev, sys, seq![bare_center(span1), with_axis(axis, value, span2)]).spec_get(
            axis.spec_to_gen(sys),
        ) == value.spec_to_gen(sys),
        resolved(prev, sys, seq![bare_center(span1), with_axis(axis, value, span2)]).spec_get(
            axis.spec_to_gen(sys).spec_other(),
        ) == GenAlign::Center,
        resolved_diags(prev, sys, seq![bare_center(span1), with_axis(axis, value, span2)]) == Seq::<
            Diag,
        >::empty(),
{
    let reqs = seq![bare_center(span1), with_axis(axis, value, span2)];
    let st0 = init_state(prev);
    let s1 = step(st0, sys, None, SpecAlign::Center, span1);
    let s2 = step(s1.0, sys, Some(axis), value, span2);
    assert(reqs.drop_first() =~= seq![with_axis(axis, value, span2)]);
    assert(reqs.drop_first().drop_first() =~= Seq::<
        (Option<SpecAxis>, Spanned<SpecAlign>),
    >::empty());
    assert(run(s2.0, sys, reqs.drop_first().drop_first()).0 == s2.0);
    assert(run(s1.0, sys, reqs.drop_first()).0 == s2.0);
    assert(run(st0, sys, reqs).0 == s2.0);
    assert(resolved_diags(prev, sys, reqs) =~= Seq::<Diag>::empty());
}

/// One explicit, well-axed request followed by a bare center: the same
/// deduction, with the explicit request seen first.
pub proof fn explicit_pairs_with_center(
    prev: LayoutAlign,
    sys: LayoutSystem,
    span1: Span,
    span2: Span,
    axis: SpecAxis,
    value: SpecAlign,
)
    requires
        fits_axis(value, axis),
    ensures
        resolved(prev, sys, seq![with_axis(axis, value, span1), bare_center(span2)]).spec_get(
            axis.spec_to_gen(sys),
        ) == value.spec_to_gen(sys),
        resolved(prev, sys, seq![with_axis(axis, value, span1), bare_center(span2)]).spec_get(
            axis.spec_to_gen(sys).spec_other(),
        ) == GenAlign::Center,
        resolved_diags(prev, sys, seq![with_axis(axis, value, span1), bare_center(span2)]) == Seq::<
            Diag,
        >::empty(),
{
    let reqs = seq![with_axis(axis, value, span1), bare_center(span2)];
    let st0 = init_state(prev);
    let s1 = step(st0, sys, Some(axis), value, span1);
    let s2 = step(s1.0, sys, None, SpecAlign::Center, span2);
    assert(reqs.drop_first() =~= seq![bare_center(span2)]);
    assert(reqs.drop_first().drop_first() =~= Seq::<
        (Option<SpecAxis>, Spanned<SpecAlign>),
    >::empty());
    assert(run(s2.0, sys, reqs.drop_first().drop_first()).0 == s2.0);
    assert(run(s1.0, sys, reqs.drop_first()).0 == s2.0);
    assert(run(st0, sys, reqs).0 == s2.0);
    assert(resolved_diags(prev, sys, reqs) =~= Seq::<Diag>::empty());
}

/// Two well-axed requests that land on the same generic axis: the first one
/// wins, the other generic axis keeps its previous value, and exactly one
/// duplicate-axis diagnostic is reported, at the second request's span.
pub proof fn first_request_wins_duplicate_axis(
    prev: LayoutAlign,
    sys: LayoutSystem,
    span1: Span,
    span2: Span,
    axis1: SpecAxis,
    value1: SpecAlign,
    axis2: SpecAxis,
    value2: SpecAlign,
)
    requires
        fits_axis(value1, axis1),
        fits_axis(value2, axis2),
        axis1.spec_to_gen(sys) == axis2.spec_to_gen(sys),
    ensures
        resolved(
            prev,
            sys,
            seq![with_axis(axis1, value1, span1), with_axis(axis2, value2, span2)],
        ).spec_get(axis1.spec_to_gen(sys)) == value1.spec_to_gen(sys),
        resolved(
            prev,
            sys,
            seq![with_axis(axis1, value1, span1), with_axis(axis2, value2, span2)],
        ).spec_get(axis1.spec_to_gen(sys).spec_other()) == prev.spec_get(
            axis1.spec_to_gen(sys).spec_other(),
        ),
        resolved_diags(
            prev,
            sys,
            seq![with_axis(axis1, value1, span1), with_axis(axis2, value2, span2)],
        ) == seq![(Diag { span: span2, kind: DiagKind::DuplicateAxis { axis: axis2 } })],
{
    let reqs = seq![with_axis(axis1, value1, span1), with_axis(axis2, value2, span2)];
    let st0 = init_state(prev);
    let s1 = step(st0, sys, Some(axis1), value1, span1);
    let s2 = step(s1.0, sys, Some(axis2), value2, span2);
    assert(reqs.drop_first() =~= seq![with_axis(axis2, value2, span2)]);
    assert(reqs.drop_first().drop_first() =~= Seq::<
        (Option<SpecAxis>, Spanned<SpecAlign>),
    >::empty());
    assert(run(s2.0, sys, reqs.drop_first().drop_first()).0 == s2.0);
    assert(run(s1.0, sys, reqs.drop_first()).0 == s2.0);
    assert(run(st0, sys, reqs).0 == s2.0);
    assert(resolved_diags(prev, sys, reqs) =~= seq![
        (Diag { span: span2, kind: DiagKind::DuplicateAxis { axis: axis2 } }),
    ]);
}

/// A directional value explicitly paired with the other axis is rejected
/// with one axis-mismatch diagnostic and changes nothing.
pub proof fn mismatched_axis_changes_nothing(
    prev: LayoutAlign,
    sys: LayoutSystem,
    span: Span,
    axis: SpecAxis,
    value: SpecAlign,
)
    requires
        value.spec_axis() is Some,
        value.spec_axis() != Some(axis),
    ensures
        resolved(prev, sys, seq![with_axis(axis, value, span)]) == prev,
        resolved_diags(prev, sys, seq![with_axis(axis, value, span)]) == seq![
            (Diag { span, kind: DiagKind::AxisMismatch { align: value, axis } }),
        ],
{
    let reqs = seq![with_axis(axis, value, span)];
    let st0 = init_state(prev);
    let s1 = step(st0, sys, Some(axis), value, span);
    assert(reqs.drop_first() =~= Seq::<(Option<SpecAxis>, Spanned<SpecAlign>)>::empty());
    assert(run(s1.0, sys, reqs.drop_first()).0 == s1.0);
    assert(run(st0, sys, reqs).0 == s1.0);
    assert(resolved_diags(prev, sys, reqs) =~= seq![
        (Diag { span, kind: DiagKind::AxisMismatch { align: value, axis } }),
    ]);
}

/// Resolution is a function of the previous alignment, the writing system
/// and the request sequence alone: two resolutions of the same sequence from
/// the same starting state agree.
pub proof fn resolution_is_deterministic(
    prev: LayoutAlign,
    sys: LayoutSystem,
    reqs: Seq<(Option<SpecAxis>, Spanned<SpecAlign>)>,
    r1: LayoutAlign,
    r2: LayoutAlign,
)
    requires
        r1 == resolved(prev, sys, reqs),
        r2 == resolved(prev, sys, reqs),
    ensures
        r1 == r2,
{
}

/// With no arguments at all, resolution hands the previous alignment back
/// unchanged and reports nothing.
pub proof fn no_requests_keep_previous(prev: LayoutAlign, sys: LayoutSystem)
    ensures
        resolved(prev, sys, align_requests(None, None, None, None)) == prev,
        resolved_diags(prev, sys, align_requests(None, None, None, None)) == Seq::<Diag>::empty(),
{
    assert(align_requests(None, None, None, None) =~= Seq::<
        (Option<SpecAxis>, Spanned<SpecAlign>),
    >::empty());
}

/// The directive's round trip: with no arguments and no body it emits one
/// set command carrying the previous alignment; with a body it brackets the
/// body's layout between setting that value and restoring it, a no-op
/// overall on ambient state.
pub proof fn round_trip_commands<T>(body: Option<T>, prev: LayoutAlign, sys: LayoutSystem)
    ensures
        body is None ==> align_commands(
            body,
            resolved(prev, sys, align_requests(None, None, None, None)),
            prev,
        ) == seq![Command::<T>::SetAlignment(prev)],
        body is Some ==> align_commands(
            body,
            resolved(prev, sys, align_requests(None, None, None, None)),
            prev,
        ) == seq![
            Command::<T>::SetAlignment(prev),
            Command::<T>::LayoutSyntaxTree(body->0),
            Command::<T>::SetAlignment(prev),
        ],
{
    no_requests_keep_previous(prev, sys);
}

} // verus!
