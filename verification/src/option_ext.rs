//! Extra methods on option values used for argument handling.

use vstd::prelude::*;

use crate::diag::{diag_is_missing, Diag, DiagKind, Feedback};
use crate::model::Span;

verus! {

/// Extra methods on option values used for argument handling.
pub trait OptionExt<T>: Sized {
    /// The option this value stands for.
    spec fn as_opt(self) -> Option<T>;

    /// Call `f` with the value if there is one.
    fn with<F: FnOnce(T)>(self, f: F)
        requires
            self.as_opt() matches Some(v) ==> call_requires(f, (v,)),
        ensures
            self.as_opt() matches Some(v) ==> call_ensures(f, (v,), ()),
    ;

    /// Report a missing-argument diagnostic with the given name and span if
    /// there is no value; the value itself is handed back either way.
    fn or_missing(self, span: Span, arg: &str, f: &mut Feedback) -> (r: Self)
        ensures
            r.as_opt() == self.as_opt(),
            self.as_opt() is Some ==> final(f).diags@ == old(f).diags@,
            self.as_opt() is None ==> {
                &&& final(f).diags@.len() == old(f).diags@.len() + 1
                &&& final(f).diags@.drop_last() == old(f).diags@
                &&& diag_is_missing(final(f).diags@.last(), span, arg@)
            },
    ;
}

impl<T> OptionExt<T> for Option<T> {
    open spec fn as_opt(self) -> Option<T> {
        self
    }

    fn with<F: FnOnce(T)>(self, f: F) {
        if let Some(val) = self {
            f(val);
        }
    }

    fn or_missing(self, span: Span, arg: &str, f: &mut Feedback) -> (r: Self) {
        if self.is_none() {
            let name = arg.to_owned();
            f.diag(Diag { span, kind: DiagKind::MissingArgument { name } });
            assert(f.diags@.drop_last() =~= old(f).diags@);
        }
        self
    }
}

} // verus!
