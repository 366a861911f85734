//! The closed set of numeric kinds, the scalar values of a stream and the
//! ranges that constrain a field.

use vstd::prelude::*;

verus! {

/// The numeric kind of a field. No other kind exists.
#[derive(Clone, Copy, Debug, PartialEq, Eq, Structural)]
pub enum NumericKind {
    Int32,
    Float64,
}

/// One scalar value of a stream. A `Float64` is carried as the bit pattern
/// of its IEEE 754 binary64 encoding, so two scalars are equal exactly when
/// they are the same bits.
#[derive(Clone, Copy, Debug, PartialEq, Eq, Structural)]
pub enum Scalar {
    Int32(i32),
    Float64(u64),
}

impl Scalar {
    /// The kind a scalar belongs to.
    pub open spec fn spec_kind(self) -> NumericKind {
        match self {
            Scalar::Int32(_) => NumericKind::Int32,
            Scalar::Float64(_) => NumericKind::Float64,
        }
    }

    #[verifier::when_used_as_spec(spec_kind)]
    pub fn kind(self) -> (kind: NumericKind)
        ensures
            kind == self.spec_kind(),
    {
        match self {
            Scalar::Int32(_) => NumericKind::Int32,
            Scalar::Float64(_) => NumericKind::Float64,
        }
    }
}

/// One end of a domain. An integer end is held by value. A floating-point
/// end is held as the decimal digits of the literal that was written, sign
/// and exponent included and without underscores or suffix: this library
/// never evaluates it.
#[derive(Clone, Debug, PartialEq, Eq)]
pub enum Bound {
    Int32(i32),
    Float64(String),
}

/// The mathematical model of a [`Bound`].
pub enum BoundView {
    Int32(i32),
    Float64(Seq<char>),
}

impl BoundView {
    pub open spec fn kind(self) -> NumericKind {
        match self {
            BoundView::Int32(_) => NumericKind::Int32,
            BoundView::Float64(_) => NumericKind::Float64,
        }
    }
}

impl View for Bound {
    type V = BoundView;

    open spec fn view(&self) -> BoundView {
        match *self {
            Bound::Int32(value) => BoundView::Int32(value),
            Bound::Float64(digits) => BoundView::Float64(digits@),
        }
    }
}

impl Bound {
    /// The kind of the scalar that this end bounds.
    pub fn kind(&self) -> (kind: NumericKind)
        ensures
            kind == self@.kind(),
    {
        match self {
            Bound::Int32(_) => NumericKind::Int32,
            Bound::Float64(_) => NumericKind::Float64,
        }
    }

    /// A copy with the same model.
    pub fn duplicate(&self) -> (copy: Bound)
        ensures
            copy@ == self@,
    {
        match self {
            Bound::Int32(value) => Bound::Int32(*value),
            Bound::Float64(digits) => Bound::Float64(digits.clone()),
        }
    }
}

/// The range of values a field may take: `lower..upper`, or `lower..=upper`
/// where `inclusive_upper` is set.
#[derive(Clone, Debug, PartialEq, Eq)]
pub struct DomainRange {
    pub lower: Bound,
    pub upper: Bound,
    pub inclusive_upper: bool,
}

/// The mathematical model of a [`DomainRange`].
pub struct DomainRangeView {
    pub lower: BoundView,
    pub upper: BoundView,
    pub inclusive_upper: bool,
}

impl DomainRangeView {
    /// Both ends bound scalars of one kind.
    pub open spec fn well_formed(self) -> bool {
        self.lower.kind() == self.upper.kind()
    }

    /// The kind of the scalars in the range.
    pub open spec fn kind(self) -> NumericKind {
        self.lower.kind()
    }
}

impl View for DomainRange {
    type V = DomainRangeView;

    open spec fn view(&self) -> DomainRangeView {
        DomainRangeView {
            lower: self.lower@,
            upper: self.upper@,
            inclusive_upper: self.inclusive_upper,
        }
    }
}

impl DomainRange {
    /// The kind of the scalars in the range: that of its lower end.
    pub fn kind(&self) -> (kind: NumericKind)
        ensures
            kind == self@.kind(),
    {
        self.lower.kind()
    }

    /// A copy with the same model.
    pub fn duplicate(&self) -> (copy: DomainRange)
        ensures
            copy@ == self@,
    {
        DomainRange {
            lower: self.lower.duplicate(),
            upper: self.upper.duplicate(),
            inclusive_upper: self.inclusive_upper,
        }
    }
}

} // verus!
