//! The axis and alignment model: the two layout axes in user-facing and in
//! writing-system-relative terms, and the mapping between them.

use vstd::prelude::*;

verus! {

/// A layout axis as the user names it, independent of writing direction.
#[derive(Clone, Copy, Debug, PartialEq, Eq, Structural)]
pub enum SpecAxis {
    Horizontal,
    Vertical,
}

/// A layout axis named relative to the writing system: the primary axis is
/// the one text flows along, the secondary the one lines stack along.
#[derive(Clone, Copy, Debug, PartialEq, Eq, Structural)]
pub enum GenAxis {
    Primary,
    Secondary,
}

/// An alignment token as written in document source.
#[derive(Clone, Copy, Debug, PartialEq, Eq, Structural)]
pub enum SpecAlign {
    Left,
    Right,
    Top,
    Bottom,
    Center,
}

/// An alignment relative to a generic axis, independent of writing direction.
#[derive(Clone, Copy, Debug, PartialEq, Eq, Structural)]
pub enum GenAlign {
    Start,
    Center,
    End,
}

/// A direction along one of the two axes.
#[derive(Clone, Copy, Debug, PartialEq, Eq, Structural)]
pub enum Dir {
    LeftToRight,
    RightToLeft,
    TopToBottom,
    BottomToTop,
}

/// A region of document source that a value or a diagnostic points at.
#[derive(Clone, Copy, Debug, PartialEq, Eq, Structural)]
pub struct Span {
    pub start: u64,
    pub end: u64,
}

/// A value together with the source span it came from.
#[derive(Clone, Copy, Debug, PartialEq, Eq)]
pub struct Spanned<T> {
    pub v: T,
    pub span: Span,
}

/// The active writing system: the directions along the primary and the
/// secondary generic axis.
#[derive(Clone, Copy, Debug, PartialEq, Eq, Structural)]
pub struct LayoutSystem {
    pub primary: Dir,
    pub secondary: Dir,
}

/// A fully resolved alignment: one generic alignment per generic axis.
#[derive(Clone, Copy, Debug, PartialEq, Eq, Structural)]
pub struct LayoutAlign {
    pub primary: GenAlign,
    pub secondary: GenAlign,
}

impl Dir {
    /// The user-facing axis this direction runs along.
    pub open spec fn spec_axis(self) -> SpecAxis {
        match self {
            Dir::LeftToRight | Dir::RightToLeft => SpecAxis::Horizontal,
            Dir::TopToBottom | Dir::BottomToTop => SpecAxis::Vertical,
        }
    }

    /// The user-facing axis this direction runs along.
    #[verifier::when_used_as_spec(spec_axis)]
    pub fn axis(self) -> (a: SpecAxis)
        ensures
            a == self.spec_axis(),
    {
        match self {
            Dir::LeftToRight | Dir::RightToLeft => SpecAxis::Horizontal,
            Dir::TopToBottom | Dir::BottomToTop => SpecAxis::Vertical,
        }
    }

    /// Whether the direction runs towards greater coordinates on its axis.
    pub open spec fn spec_is_positive(self) -> bool {
        match self {
            Dir::LeftToRight | Dir::TopToBottom => true,
            Dir::RightToLeft | Dir::BottomToTop => false,
        }
    }

    /// Whether the direction runs towards greater coordinates on its axis.
    #[verifier::when_used_as_spec(spec_is_positive)]
    pub fn is_positive(self) -> (p: bool)
        ensures
            p == self.spec_is_positive(),
    {
        match self {
            Dir::LeftToRight | Dir::TopToBottom => true,
            Dir::RightToLeft | Dir::BottomToTop => false,
        }
    }
}

impl GenAxis {
    /// The generic axis other than this one.
    pub open spec fn spec_other(self) -> GenAxis {
        match self {
            GenAxis::Primary => GenAxis::Secondary,
            GenAxis::Secondary => GenAxis::Primary,
        }
    }

    /// The generic axis other than this one.
    #[verifier::when_used_as_spec(spec_other)]
    pub fn other(self) -> (a: GenAxis)
        ensures
            a == self.spec_other(),
    {
        match self {
            GenAxis::Primary => GenAxis::Secondary,
            GenAxis::Secondary => GenAxis::Primary,
        }
    }
}

impl LayoutSystem {
    /// A writing system from the two axis directions.
    pub fn new(primary: Dir, secondary: Dir) -> (sys: LayoutSystem)
        ensures
            sys == (LayoutSystem { primary, secondary }),
    {
        LayoutSystem { primary, secondary }
    }

    /// The direction along the given generic axis.
    pub open spec fn spec_get(self, axis: GenAxis) -> Dir {
        match axis {
            GenAxis::Primary => self.primary,
            GenAxis::Secondary => self.secondary,
        }
    }

    /// The direction along the given generic axis.
    #[verifier::when_used_as_spec(spec_get)]
    pub fn get(self, axis: GenAxis) -> (d: Dir)
        ensures
            d == self.spec_get(axis),
    {
        match axis {
            GenAxis::Primary => self.primary,
            GenAxis::Secondary => self.secondary,
        }
    }
}

impl SpecAxis {
    /// The generic axis this user-facing axis denotes under the writing
    /// system: primary when text flows along it, secondary otherwise.
    pub open spec fn spec_to_gen(self, sys: LayoutSystem) -> GenAxis {
        if self == sys.primary.spec_axis() {
            GenAxis::Primary
        } else {
            GenAxis::Secondary
        }
    }

    /// The generic axis this user-facing axis denotes under the writing
    /// system.
    #[verifier::when_used_as_spec(spec_to_gen)]
    pub fn to_gen(self, sys: LayoutSystem) -> (a: GenAxis)
        ensures
            a == self.spec_to_gen(sys),
    {
        if self == sys.primary.axis() {
            GenAxis::Primary
        } else {
            GenAxis::Secondary
        }
    }
}

impl SpecAlign {
    /// The axis a directional token intrinsically belongs to; a center token
    /// belongs to none.
    pub open spec fn spec_axis(self) -> Option<SpecAxis> {
        match self {
            SpecAlign::Left | SpecAlign::Right => Some(SpecAxis::Horizontal),
            SpecAlign::Top | SpecAlign::Bottom => Some(SpecAxis::Vertical),
            SpecAlign::Center => None,
        }
    }

    /// The axis a directional token intrinsically belongs to; a center token
    /// belongs to none.
    #[verifier::when_used_as_spec(spec_axis)]
    pub fn axis(self) -> (a: Option<SpecAxis>)
        ensures
            a == self.spec_axis(),
    {
        match self {
            SpecAlign::Left | SpecAlign::Right => Some(SpecAxis::Horizontal),
            SpecAlign::Top | SpecAlign::Bottom => Some(SpecAxis::Vertical),
            SpecAlign::Center => None,
        }
    }

    /// The generic alignment this token denotes under the writing system:
    /// the near end of its axis maps to start when the direction along that
    /// axis is positive, to end otherwise.
    pub open spec fn spec_to_gen(self, sys: LayoutSystem) -> GenAlign {
        match self.spec_axis() {
            None => GenAlign::Center,
            Some(axis) => {
                let positive = sys.spec_get(axis.spec_to_gen(sys)).spec_is_positive();
                let near = self == SpecAlign::Left || self == SpecAlign::Top;
                if near == positive {
                    GenAlign::Start
                } else {
                    GenAlign::End
                }
            },
        }
    }

    /// The generic alignment this token denotes under the writing system.
    #[verifier::when_used_as_spec(spec_to_gen)]
    pub fn to_gen(self, sys: LayoutSystem) -> (a: GenAlign)
        ensures
            a == self.spec_to_gen(sys),
    {
        match self.axis() {
            None => GenAlign::Center,
            Some(axis) => {
                let positive = sys.get(axis.to_gen(sys)).is_positive();
                let near = self == SpecAlign::Left || self == SpecAlign::Top;
                if near == positive {
                    GenAlign::Start
                } else {
                    GenAlign::End
                }
            },
        }
    }
}

impl LayoutAlign {
    /// An alignment from its two components.
    pub fn new(primary: GenAlign, secondary: GenAlign) -> (a: LayoutAlign)
        ensures
            a == (LayoutAlign { primary, secondary }),
    {
        LayoutAlign { primary, secondary }
    }

    /// The component for the given generic axis.
    pub open spec fn spec_get(self, axis: GenAxis) -> GenAlign {
        match axis {
            GenAxis::Primary => self.primary,
            GenAxis::Secondary => self.secondary,
        }
    }

    /// The component for the given generic axis.
    #[verifier::when_used_as_spec(spec_get)]
    pub fn get(self, axis: GenAxis) -> (a: GenAlign)
        ensures
            a == self.spec_get(axis),
    {
        match axis {
            GenAxis::Primary => self.primary,
            GenAxis::Secondary => self.secondary,
        }
    }

    /// This alignment with the component for the given generic axis replaced.
    pub open spec fn spec_set(self, axis: GenAxis, align: GenAlign) -> LayoutAlign {
        match axis {
            GenAxis::Primary => LayoutAlign { primary: align, secondary: self.secondary },
            GenAxis::Secondary => LayoutAlign { primary: self.primary, secondary: align },
        }
    }

    /// Replace the component for the given generic axis.
    pub fn set(&mut self, axis: GenAxis, align: GenAlign)
        ensures
            *final(self) == old(self).spec_set(axis, align),
    {
        match axis {
            GenAxis::Primary => self.primary = align,
            GenAxis::Secondary => self.secondary = align,
        }
    }
}

} // verus!
