//! The alignment resolver: consumes an ordered sequence of possibly
//! axis-unknown alignment requests against the previous alignment, confirms
//! at most one request per generic axis, defers a bare center request until
//! an axis for it can be deduced, and reports a diagnostic for every
//! rejected request without ever failing outright.

use vstd::prelude::*;

use crate::diag::{Diag, DiagKind, LayoutContext};
use crate::model::{GenAlign, GenAxis, LayoutAlign, LayoutSystem, Span, SpecAlign, SpecAxis, Spanned};

verus! {

/// The state the resolver carries across the request sequence.
#[derive(Clone, Copy, Debug, PartialEq, Eq, Structural)]
pub struct ResolveState {
    /// The candidate alignment, seeded from the previous value.
    pub aligns: LayoutAlign,
    /// Whether the primary axis was confirmed by a request this evaluation.
    pub had_primary: bool,
    /// Whether the secondary axis was confirmed by a request this evaluation.
    pub had_secondary: bool,
    /// Whether a bare center request is still awaiting its axis.
    pub had_center: bool,
}

/// The resolver state at entry: the previous alignment, nothing confirmed.
pub open spec fn init_state(prev: LayoutAlign) -> ResolveState {
    ResolveState { aligns: prev, had_primary: false, had_secondary: false, had_center: false }
}

/// Whether the given generic axis was already confirmed.
pub open spec fn confirmed(st: ResolveState, axis: GenAxis) -> bool {
    match axis {
        GenAxis::Primary => st.had_primary,
        GenAxis::Secondary => st.had_secondary,
    }
}

/// Confirm the given generic axis with the given alignment.
pub open spec fn confirm(st: ResolveState, axis: GenAxis, align: GenAlign) -> ResolveState {
    match axis {
        GenAxis::Primary => ResolveState {
            aligns: LayoutAlign { primary: align, secondary: st.aligns.secondary },
            had_primary: true,
            ..st
        },
        GenAxis::Secondary => ResolveState {
            aligns: LayoutAlign { primary: st.aligns.primary, secondary: align },
            had_secondary: true,
            ..st
        },
    }
}

/// One request whose axis is known: a directional value paired with the
/// other axis is rejected as a mismatch, a request for an already confirmed
/// generic axis as a duplicate; otherwise the mapped generic axis is
/// confirmed with the mapped generic alignment.
pub open spec fn step_known(
    st: ResolveState,
    sys: LayoutSystem,
    axis: SpecAxis,
    align: SpecAlign,
    span: Span,
) -> (ResolveState, Seq<Diag>) {
    let gen_axis = axis.spec_to_gen(sys);
    let mismatch = match align.spec_axis() {
        Some(a) => a != axis,
        None => false,
    };
    if mismatch {
        (st, seq![Diag { span, kind: DiagKind::AxisMismatch { align, axis } }])
    } else if confirmed(st, gen_axis) {
        (st, seq![Diag { span, kind: DiagKind::DuplicateAxis { axis } }])
    } else {
        (confirm(st, gen_axis, align.spec_to_gen(sys)), Seq::<Diag>::empty())
    }
}

/// One bare center request, whose axis is not yet known: rejected as
/// over-specified when both axes are already confirmed; a second pending
/// center collapses both axes to center at once; otherwise it is left
/// pending until an axis for it can be deduced.
pub open spec fn step_center(st: ResolveState, span: Span) -> (ResolveState, Seq<Diag>) {
    if st.had_primary && st.had_secondary {
        (st, seq![Diag { span, kind: DiagKind::OverSpecified }])
    } else if st.had_center {
        (
            ResolveState {
                aligns: LayoutAlign { primary: GenAlign::Center, secondary: GenAlign::Center },
                had_primary: true,
                had_secondary: true,
                had_center: false,
            },
            Seq::<Diag>::empty(),
        )
    } else {
        (ResolveState { had_center: true, ..st }, Seq::<Diag>::empty())
    }
}

/// Once exactly one axis is confirmed, a pending center is deduced to mean
/// the other, still open axis and confirms it as centered.
pub open spec fn flush_center(st: ResolveState) -> ResolveState {
    if st.had_center && (st.had_primary || st.had_secondary) {
        if st.had_primary {
            ResolveState {
                aligns: LayoutAlign { primary: st.aligns.primary, secondary: GenAlign::Center },
                had_secondary: true,
                had_center: false,
                ..st
            }
        } else {
            ResolveState {
                aligns: LayoutAlign { primary: GenAlign::Center, secondary: st.aligns.secondary },
                had_primary: true,
                had_center: false,
                ..st
            }
        }
    } else {
        st
    }
}

/// One request, with or without a known axis, followed by the deduction of a
/// pending center onto the one remaining open axis.
pub open spec fn step(
    st: ResolveState,
    sys: LayoutSystem,
    axis: Option<SpecAxis>,
    align: SpecAlign,
    span: Span,
) -> (ResolveState, Seq<Diag>) {
    let stepped = match axis {
        Some(a) => step_known(st, sys, a, align, span),
        None => step_center(st, span),
    };
    (flush_center(stepped.0), stepped.1)
}

/// The resolver state and the diagnostics, in order, after consuming the
/// whole request sequence.
pub open spec fn run(
    st: ResolveState,
    sys: LayoutSystem,
    reqs: Seq<(Option<SpecAxis>, Spanned<SpecAlign>)>,
) -> (ResolveState, Seq<Diag>)
    decreases reqs.len(),
{
    if reqs.len() == 0 {
        (st, Seq::<Diag>::empty())
    } else {
        let first = step(st, sys, reqs[0].0, reqs[0].1.v, reqs[0].1.span);
        let rest = run(first.0, sys, reqs.drop_first());
        (rest.0, first.1 + rest.1)
    }
}

/// A center still pending after all requests defaults to the primary axis.
pub open spec fn finish(st: ResolveState) -> LayoutAlign {
    if st.had_center {
        LayoutAlign { primary: GenAlign::Center, secondary: st.aligns.secondary }
    } else {
        st.aligns
    }
}

/// The alignment that resolving the request sequence against the previous
/// alignment yields.
pub open spec fn resolved(
    prev: LayoutAlign,
    sys: LayoutSystem,
    reqs: Seq<(Option<SpecAxis>, Spanned<SpecAlign>)>,
) -> LayoutAlign {
    finish(run(init_state(prev), sys, reqs).0)
}

/// The diagnostics, in request order, that resolving the sequence reports.
pub open spec fn resolved_diags(
    prev: LayoutAlign,
    sys: LayoutSystem,
    reqs: Seq<(Option<SpecAxis>, Spanned<SpecAlign>)>,
) -> Seq<Diag> {
    run(init_state(prev), sys, reqs).1
}

/// Process one request against the running state, reporting the diagnostic
/// for a rejected request into the context's sink.
fn step_request(
    st: ResolveState,
    axis: Option<SpecAxis>,
    align: SpecAlign,
    span: Span,
    ctx: &mut LayoutContext,
) -> (r: ResolveState)
    ensures
        r == step(st, old(ctx).state.sys, axis, align, span).0,
        final(ctx).state == old(ctx).state,
        final(ctx).feedback.diags@ == old(ctx).feedback.diags@ + step(
            st,
            old(ctx).state.sys,
            axis,
            align,
            span,
        ).1,
{
    let sys = ctx.state.sys;
    let mut st = st;
    match axis {
        Some(axis) => {
            // We know the axis the request targets.
            let gen_axis = axis.to_gen(sys);
            let mismatch = match align.axis() {
                Some(a) => a != axis,
                None => false,
            };
            let already = match gen_axis {
                GenAxis::Primary => st.had_primary,
                GenAxis::Secondary => st.had_secondary,
            };
            if mismatch {
                ctx.diag(Diag { span, kind: DiagKind::AxisMismatch { align, axis } });
            } else if already {
                ctx.diag(Diag { span, kind: DiagKind::DuplicateAxis { axis } });
            } else {
                let gen_align = align.to_gen(sys);
                match gen_axis {
                    GenAxis::Primary => {
                        st.aligns.primary = gen_align;
                        st.had_primary = true;
                    },
                    GenAxis::Secondary => {
                        st.aligns.secondary = gen_align;
                        st.had_secondary = true;
                    },
                }
            }
        },
        None => {
            // The axis is unknown: a bare center from a positional slot.
            if st.had_primary && st.had_secondary {
                ctx.diag(Diag { span, kind: DiagKind::OverSpecified });
            } else if st.had_center {
                // Both this and the previous request are pending centers:
                // both axes are centered at once.
                st.aligns = LayoutAlign { primary: GenAlign::Center, secondary: GenAlign::Center };
                st.had_primary = true;
                st.had_secondary = true;
                st.had_center = false;
            } else {
                st.had_center = true;
            }
        },
    }
    // With exactly one axis confirmed, a pending center is deduced to mean
    // the other one.
    if st.had_center && (st.had_primary || st.had_secondary) {
        if st.had_primary {
            st.aligns.secondary = GenAlign::Center;
            st.had_secondary = true;
        } else {
            st.aligns.primary = GenAlign::Center;
            st.had_primary = true;
        }
        st.had_center = false;
    }
    st
}

/// Deduplicate alignments and deduce which generic axis each applies to.
///
/// Consumes the requests in order against the context's current alignment
/// and writing system, reports a diagnostic for every rejected request, and
/// always returns a usable alignment; the ambient state is never mutated.
pub fn dedup_aligns(
    ctx: &mut LayoutContext,
    requests: &Vec<(Option<SpecAxis>, Spanned<SpecAlign>)>,
) -> (r: LayoutAlign)
    ensures
        r == resolved(old(ctx).state.align, old(ctx).state.sys, requests@),
        final(ctx).state == old(ctx).state,
        final(ctx).feedback.diags@ == old(ctx).feedback.diags@ + resolved_diags(
            old(ctx).state.align,
            old(ctx).state.sys,
            requests@,
        ),
{
    let ghost all = requests@;
    let ghost state0 = ctx.state;
    let ghost diags0 = ctx.feedback.diags@;
    let mut st = ResolveState {
        aligns: ctx.state.align,
        had_primary: false,
        had_secondary: false,
        had_center: false,
    };
    let ghost st0 = st;
    assert(st0 == init_state(state0.align));
    assert(all.skip(0) =~= all);

    let mut i: usize = 0;
    while i < requests.len()
        invariant
            i <= requests.len(),
            requests@ == all,
            ctx.state == state0,
            run(st, state0.sys, all.skip(i as int)).0 == run(st0, state0.sys, all).0,
            ctx.feedback.diags@ + run(st, state0.sys, all.skip(i as int)).1 == diags0 + run(
                st0,
                state0.sys,
                all,
            ).1,
        decreases requests.len() - i,
    {
        let (axis, spanned) = requests[i];
        let ghost before = st;
        let ghost rest = all.skip(i as int);
        assert(rest[0] == all[i as int]);
        assert(rest.drop_first() =~= all.skip(i as int + 1));
        let ghost diags_before = ctx.feedback.diags@;
        st = step_request(st, axis, spanned.v, spanned.span, ctx);
        proof {
            let stepped = step(before, state0.sys, axis, spanned.v, spanned.span);
            assert(run(before, state0.sys, rest).0 == run(st, state0.sys, rest.drop_first()).0);
            assert(run(before, state0.sys, rest).1 == stepped.1 + run(
                st,
                state0.sys,
                rest.drop_first(),
            ).1);
            assert((diags_before + stepped.1) + run(st, state0.sys, rest.drop_first()).1
                =~= diags_before + (stepped.1 + run(st, state0.sys, rest.drop_first()).1));
        }
        i = i + 1;
    }
    assert(all.skip(requests@.len() as int) =~= Seq::<
        (Option<SpecAxis>, Spanned<SpecAlign>),
    >::empty());
    assert(ctx.feedback.diags@ + Seq::<Diag>::empty() =~= ctx.feedback.diags@);

    // If no request ever confirmed an axis for a pending center, it defaults
    // to the primary axis.
    if st.had_center {
        st.aligns.primary = GenAlign::Center;
    }
    st.aligns
}

} // verus!
