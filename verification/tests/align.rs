use alignment::diag::{DiagKind, Feedback, LayoutContext, LayoutState};
use alignment::eval::{align, Command};
use alignment::model::{
    Dir, GenAlign, GenAxis, LayoutAlign, LayoutSystem, Span, SpecAlign, SpecAxis, Spanned,
};
use alignment::option_ext::OptionExt;
use alignment::resolve::dedup_aligns;

fn ltr() -> LayoutSystem {
    LayoutSystem::new(Dir::LeftToRight, Dir::TopToBottom)
}

fn rtl() -> LayoutSystem {
    LayoutSystem::new(Dir::RightToLeft, Dir::TopToBottom)
}

fn ctx_with(align: LayoutAlign, sys: LayoutSystem) -> LayoutContext {
    LayoutContext::new(LayoutState { align, sys })
}

fn sp(n: u64) -> Span {
    Span { start: n, end: n + 1 }
}

fn spanned(v: SpecAlign, n: u64) -> Spanned<SpecAlign> {
    Spanned { v, span: sp(n) }
}

#[test]
fn token_axes() {
    assert_eq!(SpecAlign::Left.axis(), Some(SpecAxis::Horizontal));
    assert_eq!(SpecAlign::Right.axis(), Some(SpecAxis::Horizontal));
    assert_eq!(SpecAlign::Top.axis(), Some(SpecAxis::Vertical));
    assert_eq!(SpecAlign::Bottom.axis(), Some(SpecAxis::Vertical));
    assert_eq!(SpecAlign::Center.axis(), None);
}

#[test]
fn direction_axes_and_signs() {
    assert_eq!(Dir::LeftToRight.axis(), SpecAxis::Horizontal);
    assert_eq!(Dir::BottomToTop.axis(), SpecAxis::Vertical);
    assert!(Dir::LeftToRight.is_positive());
    assert!(Dir::TopToBottom.is_positive());
    assert!(!Dir::RightToLeft.is_positive());
    assert!(!Dir::BottomToTop.is_positive());
}

#[test]
fn axis_mapping_follows_writing_direction() {
    assert_eq!(SpecAxis::Horizontal.to_gen(ltr()), GenAxis::Primary);
    assert_eq!(SpecAxis::Vertical.to_gen(ltr()), GenAxis::Secondary);
    let vertical_first = LayoutSystem::new(Dir::TopToBottom, Dir::RightToLeft);
    assert_eq!(SpecAxis::Horizontal.to_gen(vertical_first), GenAxis::Secondary);
    assert_eq!(SpecAxis::Vertical.to_gen(vertical_first), GenAxis::Primary);
}

#[test]
fn alignment_mapping_follows_writing_direction() {
    assert_eq!(SpecAlign::Left.to_gen(ltr()), GenAlign::Start);
    assert_eq!(SpecAlign::Right.to_gen(ltr()), GenAlign::End);
    assert_eq!(SpecAlign::Top.to_gen(ltr()), GenAlign::Start);
    assert_eq!(SpecAlign::Bottom.to_gen(ltr()), GenAlign::End);
    assert_eq!(SpecAlign::Center.to_gen(ltr()), GenAlign::Center);
    assert_eq!(SpecAlign::Left.to_gen(rtl()), GenAlign::End);
    assert_eq!(SpecAlign::Right.to_gen(rtl()), GenAlign::Start);
    let upward = LayoutSystem::new(Dir::LeftToRight, Dir::BottomToTop);
    assert_eq!(SpecAlign::Top.to_gen(upward), GenAlign::End);
    assert_eq!(SpecAlign::Bottom.to_gen(upward), GenAlign::Start);
}

#[test]
fn single_center_defaults_to_primary() {
    let prev = LayoutAlign::new(GenAlign::End, GenAlign::End);
    let mut ctx = ctx_with(prev, ltr());
    let requests = vec![(None, spanned(SpecAlign::Center, 1))];
    let resolved = dedup_aligns(&mut ctx, &requests);
    assert_eq!(resolved, LayoutAlign::new(GenAlign::Center, GenAlign::End));
    assert!(ctx.feedback.diags.is_empty());
    assert_eq!(ctx.state.align, prev);
}

#[test]
fn double_center_centers_both_axes() {
    let prev = LayoutAlign::new(GenAlign::End, GenAlign::Start);
    let mut ctx = ctx_with(prev, ltr());
    let requests = vec![
        (None, spanned(SpecAlign::Center, 1)),
        (None, spanned(SpecAlign::Center, 2)),
    ];
    let resolved = dedup_aligns(&mut ctx, &requests);
    assert_eq!(resolved, LayoutAlign::new(GenAlign::Center, GenAlign::Center));
    assert!(ctx.feedback.diags.is_empty());
}

#[test]
fn center_pairs_with_explicit_vertical() {
    let prev = LayoutAlign::new(GenAlign::End, GenAlign::End);
    let mut ctx = ctx_with(prev, ltr());
    let cmds = align::<u32>(
        None,
        Some(spanned(SpecAlign::Center, 1)),
        None,
        None,
        Some(spanned(SpecAlign::Top, 2)),
        &mut ctx,
    );
    // The vertical keyword confirms the secondary axis; the bare center is
    // deduced to mean the still-open primary axis.
    let expected = LayoutAlign::new(GenAlign::Center, GenAlign::Start);
    assert_eq!(cmds, vec![Command::SetAlignment(expected)]);
    assert!(ctx.feedback.diags.is_empty());
}

#[test]
fn explicit_then_center_pairs_too() {
    let prev = LayoutAlign::new(GenAlign::End, GenAlign::End);
    let mut ctx = ctx_with(prev, ltr());
    let requests = vec![
        (Some(SpecAxis::Vertical), spanned(SpecAlign::Bottom, 1)),
        (None, spanned(SpecAlign::Center, 2)),
    ];
    let resolved = dedup_aligns(&mut ctx, &requests);
    assert_eq!(resolved, LayoutAlign::new(GenAlign::Center, GenAlign::End));
    assert!(ctx.feedback.diags.is_empty());
}

#[test]
fn duplicate_axis_keeps_first_request() {
    let prev = LayoutAlign::new(GenAlign::Center, GenAlign::Center);
    let mut ctx = ctx_with(prev, ltr());
    let cmds = align::<u32>(
        None,
        Some(spanned(SpecAlign::Left, 1)),
        None,
        Some(spanned(SpecAlign::Right, 2)),
        None,
        &mut ctx,
    );
    // Left maps to the writing-system-relative start and wins; the keyword
    // request for the same axis is rejected.
    let expected = LayoutAlign::new(GenAlign::Start, GenAlign::Center);
    assert_eq!(cmds, vec![Command::SetAlignment(expected)]);
    assert_eq!(ctx.feedback.diags.len(), 1);
    let diag = &ctx.feedback.diags[0];
    assert_eq!(diag.span, sp(2));
    match &diag.kind {
        DiagKind::DuplicateAxis { axis } => assert_eq!(*axis, SpecAxis::Horizontal),
        other => panic!("expected a duplicate-axis diagnostic, got {:?}", other),
    }
}

#[test]
fn mismatched_axis_is_rejected() {
    let prev = LayoutAlign::new(GenAlign::End, GenAlign::Start);
    let mut ctx = ctx_with(prev, ltr());
    let cmds = align::<u32>(
        None,
        None,
        None,
        None,
        Some(spanned(SpecAlign::Left, 4)),
        &mut ctx,
    );
    // `vertical: left` is dropped: the previous alignment stays active.
    assert_eq!(cmds, vec![Command::SetAlignment(prev)]);
    assert_eq!(ctx.feedback.diags.len(), 1);
    let diag = &ctx.feedback.diags[0];
    assert_eq!(diag.span, sp(4));
    match &diag.kind {
        DiagKind::AxisMismatch { align, axis } => {
            assert_eq!(*align, SpecAlign::Left);
            assert_eq!(*axis, SpecAxis::Vertical);
        },
        other => panic!("expected an axis-mismatch diagnostic, got {:?}", other),
    }
}

#[test]
fn over_specified_center_is_rejected() {
    let prev = LayoutAlign::new(GenAlign::Center, GenAlign::Center);
    let mut ctx = ctx_with(prev, ltr());
    let requests = vec![
        (Some(SpecAxis::Horizontal), spanned(SpecAlign::Left, 1)),
        (Some(SpecAxis::Vertical), spanned(SpecAlign::Top, 2)),
        (None, spanned(SpecAlign::Center, 3)),
    ];
    let resolved = dedup_aligns(&mut ctx, &requests);
    assert_eq!(resolved, LayoutAlign::new(GenAlign::Start, GenAlign::Start));
    assert_eq!(ctx.feedback.diags.len(), 1);
    let diag = &ctx.feedback.diags[0];
    assert_eq!(diag.span, sp(3));
    assert!(matches!(diag.kind, DiagKind::OverSpecified));
}

#[test]
fn no_arguments_emit_previous_alignment() {
    let prev = LayoutAlign::new(GenAlign::End, GenAlign::Start);
    let mut ctx = ctx_with(prev, ltr());
    let cmds = align::<u32>(None, None, None, None, None, &mut ctx);
    assert_eq!(cmds, vec![Command::SetAlignment(prev)]);
    assert!(ctx.feedback.diags.is_empty());
    assert_eq!(ctx.state.align, prev);
}

#[test]
fn body_round_trip_restores_previous_alignment() {
    let prev = LayoutAlign::new(GenAlign::Start, GenAlign::End);
    let mut ctx = ctx_with(prev, ltr());
    let cmds = align(Some(7u32), None, None, None, None, &mut ctx);
    assert_eq!(
        cmds,
        vec![
            Command::SetAlignment(prev),
            Command::LayoutSyntaxTree(7u32),
            Command::SetAlignment(prev),
        ]
    );
    assert!(ctx.feedback.diags.is_empty());
}

#[test]
fn scoped_body_brackets_resolved_alignment() {
    let prev = LayoutAlign::new(GenAlign::End, GenAlign::End);
    let mut ctx = ctx_with(prev, ltr());
    let cmds = align(
        Some(42u32),
        Some(spanned(SpecAlign::Center, 1)),
        Some(spanned(SpecAlign::Right, 2)),
        None,
        None,
        &mut ctx,
    );
    // Right confirms the primary axis; the pending center is deduced to mean
    // the secondary one. The body is laid out under the new value and the
    // previous one is restored afterwards.
    let expected = LayoutAlign::new(GenAlign::End, GenAlign::Center);
    assert_eq!(
        cmds,
        vec![
            Command::SetAlignment(expected),
            Command::LayoutSyntaxTree(42u32),
            Command::SetAlignment(prev),
        ]
    );
    assert!(ctx.feedback.diags.is_empty());
}

#[test]
fn resolving_twice_from_same_state_agrees() {
    let prev = LayoutAlign::new(GenAlign::Start, GenAlign::Start);
    let requests = vec![
        (None, spanned(SpecAlign::Center, 1)),
        (Some(SpecAxis::Vertical), spanned(SpecAlign::Bottom, 2)),
    ];
    let mut ctx1 = ctx_with(prev, ltr());
    let mut ctx2 = ctx_with(prev, ltr());
    let r1 = dedup_aligns(&mut ctx1, &requests);
    let r2 = dedup_aligns(&mut ctx2, &requests);
    assert_eq!(r1, r2);
    assert!(ctx1.feedback.diags.is_empty());
    assert!(ctx2.feedback.diags.is_empty());
}

#[test]
fn alignment_components_get_and_set() {
    let mut a = LayoutAlign::new(GenAlign::Start, GenAlign::End);
    assert_eq!(a.get(GenAxis::Primary), GenAlign::Start);
    assert_eq!(a.get(GenAxis::Secondary), GenAlign::End);
    a.set(GenAxis::Secondary, GenAlign::Center);
    assert_eq!(a, LayoutAlign::new(GenAlign::Start, GenAlign::Center));
    assert_eq!(GenAxis::Primary.other(), GenAxis::Secondary);
    assert_eq!(GenAxis::Secondary.other(), GenAxis::Primary);
    assert_eq!(ltr().get(GenAxis::Secondary), Dir::TopToBottom);
}

#[test]
fn or_missing_reports_absent_argument() {
    let mut feedback = Feedback::new();
    let got: Option<u32> = None.or_missing(sp(5), "horizontal", &mut feedback);
    assert_eq!(got, None);
    assert_eq!(feedback.diags.len(), 1);
    let diag = &feedback.diags[0];
    assert_eq!(diag.span, sp(5));
    match &diag.kind {
        DiagKind::MissingArgument { name } => assert_eq!(name, "horizontal"),
        other => panic!("expected a missing-argument diagnostic, got {:?}", other),
    }
}

#[test]
fn or_missing_passes_present_argument_through() {
    let mut feedback = Feedback::new();
    let got = Some(3u32).or_missing(sp(5), "vertical", &mut feedback);
    assert_eq!(got, Some(3));
    assert!(feedback.diags.is_empty());
}

#[test]
fn with_calls_only_on_present_value() {
    let mut seen = None;
    Some(9u32).with(|v| seen = Some(v));
    assert_eq!(seen, Some(9));
    let mut touched = false;
    let absent: Option<u32> = None;
    absent.with(|_| touched = true);
    assert!(!touched);
}
