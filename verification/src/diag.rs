//! Diagnostics and the layout context: errors are accumulated as data in a
//! sink and never abort an evaluation.

use vstd::prelude::*;

use crate::model::{LayoutAlign, LayoutSystem, Span, SpecAlign, SpecAxis};

verus! {

/// Why a request was rejected. Every kind is an error, but a non-fatal one:
/// the offending request is dropped and evaluation completes.
#[derive(Debug)]
pub enum DiagKind {
    /// A directional value was explicitly paired with the other axis.
    AxisMismatch { align: SpecAlign, axis: SpecAxis },
    /// A second request targeted an axis that was already confirmed.
    DuplicateAxis { axis: SpecAxis },
    /// A bare center request arrived after both axes were confirmed.
    OverSpecified,
    /// An expected argument was not given.
    MissingArgument { name: String },
}

/// An error diagnostic together with the source span it points at.
#[derive(Debug)]
pub struct Diag {
    pub span: Span,
    pub kind: DiagKind,
}

/// Whether a diagnostic reports a missing argument of the given name at the
/// given span.
pub open spec fn diag_is_missing(d: Diag, span: Span, name: Seq<char>) -> bool {
    &&& d.span == span
    &&& match d.kind {
        DiagKind::MissingArgument { name: n } => n@ == name,
        _ => false,
    }
}

/// The sink that collects diagnostics across an evaluation.
#[derive(Debug)]
pub struct Feedback {
    pub diags: Vec<Diag>,
}

impl Feedback {
    /// An empty sink.
    pub fn new() -> (f: Feedback)
        ensures
            f.diags@ == Seq::<Diag>::empty(),
    {
        Feedback { diags: Vec::new() }
    }

    /// Append one diagnostic.
    pub fn diag(&mut self, d: Diag)
        ensures
            final(self).diags@ == old(self).diags@.push(d),
    {
        self.diags.push(d);
    }
}

/// The ambient layout state a directive reads: the current alignment and the
/// active writing system.
#[derive(Clone, Copy, Debug, PartialEq, Eq, Structural)]
pub struct LayoutState {
    pub align: LayoutAlign,
    pub sys: LayoutSystem,
}

/// The layout context: the ambient state plus the diagnostic sink.
#[derive(Debug)]
pub struct LayoutContext {
    pub state: LayoutState,
    pub feedback: Feedback,
}

impl LayoutContext {
    /// A context over the given state with an empty sink.
    pub fn new(state: LayoutState) -> (ctx: LayoutContext)
        ensures
            ctx.state == state,
            ctx.feedback.diags@ == Seq::<Diag>::empty(),
    {
        LayoutContext { state, feedback: Feedback::new() }
    }

    /// Append one diagnostic to the sink; the ambient state is untouched.
    pub fn diag(&mut self, d: Diag)
        ensures
            final(self).state == old(self).state,
            final(self).feedback.diags@ == old(self).feedback.diags@.push(d),
    {
        self.feedback.diag(d);
    }
}

} // verus!
