//! Reading the payload of a domain attribute. The text is parsed by `syn`;
//! what `syn` found is then judged here.

use crate::scalar::{Bound, BoundView, DomainRange, DomainRangeView};
use quote::ToTokens;
use vstd::prelude::*;

verus! {

/// What a payload is when read as one expression.
#[derive(Clone, Debug, PartialEq, Eq)]
pub enum PayloadSyntax {
    /// The text is not one expression.
    Malformed,
    /// The text is an expression, but not a range.
    Other,
    /// The text is a range. Each end that was written is given as text.
    Range { lower: Option<String>, upper: Option<String>, inclusive: bool },
}

/// The mathematical model of a [`PayloadSyntax`].
pub enum PayloadSyntaxView {
    Malformed,
    Other,
    Range { lower: Option<Seq<char>>, upper: Option<Seq<char>>, inclusive: bool },
}

impl View for PayloadSyntax {
    type V = PayloadSyntaxView;

    open spec fn view(&self) -> PayloadSyntaxView {
        match *self {
            PayloadSyntax::Malformed => PayloadSyntaxView::Malformed,
            PayloadSyntax::Other => PayloadSyntaxView::Other,
            PayloadSyntax::Range { lower, upper, inclusive } => PayloadSyntaxView::Range {
                lower: match lower {
                    Some(text) => Some(text@),
                    None => None,
                },
                upper: match upper {
                    Some(text) => Some(text@),
                    None => None,
                },
                inclusive,
            },
        }
    }
}

/// What a piece of text is when read as one literal.
#[derive(Clone, Debug, PartialEq, Eq)]
pub enum LiteralSyntax {
    /// The text is not one literal.
    Absent,
    /// An integer literal: its decimal digits, its value where that fits in
    /// an `i32`, and its suffix.
    Int { digits: String, value: Option<i32>, suffix: String },
    /// A floating-point literal: its decimal digits and its suffix.
    Float { digits: String, suffix: String },
    /// A literal of another sort.
    Other,
}

/// The mathematical model of a [`LiteralSyntax`].
pub enum LiteralSyntaxView {
    Absent,
    Int { digits: Seq<char>, value: Option<i32>, suffix: Seq<char> },
    Float { digits: Seq<char>, suffix: Seq<char> },
    Other,
}

impl View for LiteralSyntax {
    type V = LiteralSyntaxView;

    open spec fn view(&self) -> LiteralSyntaxView {
        match *self {
            LiteralSyntax::Absent => LiteralSyntaxView::Absent,
            LiteralSyntax::Int { digits, value, suffix } => LiteralSyntaxView::Int {
                digits: digits@,
                value,
                suffix: suffix@,
            },
            LiteralSyntax::Float { digits, suffix } => LiteralSyntaxView::Float {
                digits: digits@,
                suffix: suffix@,
            },
            LiteralSyntax::Other => LiteralSyntaxView::Other,
        }
    }
}

/// What `syn` makes of a text that it parses as one expression.
pub uninterp spec fn payload_syntax(payload: Seq<char>) -> PayloadSyntaxView;

/// What `syn` makes of a text that it parses as one literal.
pub uninterp spec fn literal_syntax(text: Seq<char>) -> LiteralSyntaxView;

/// Parses `payload` with `syn::parse_str::<syn::Expr>`. A failure to parse
/// is `Malformed`, an `Expr::Range` is `Range`, any other expression is
/// `Other`. Of a range the two ends are rendered back to text with
/// `ToTokens::to_token_stream`, and `inclusive` tells `RangeLimits::Closed`
/// from `RangeLimits::HalfOpen`. The contract only gives the outcome a name:
/// the same text always reads the same.
#[verifier::external_body]
pub(crate) fn read_payload(payload: &str) -> (syntax: PayloadSyntax)
    ensures
        syntax@ == payload_syntax(payload@),
{
    match syn::parse_str::<syn::Expr>(payload) {
        Ok(syn::Expr::Range(range)) => PayloadSyntax::Range {
            lower: range.start.map(|end| end.to_token_stream().to_string()),
            upper: range.end.map(|end| end.to_token_stream().to_string()),
            inclusive: matches!(range.limits, syn::RangeLimits::Closed(_)),
        },
        Ok(_) => PayloadSyntax::Other,
        Err(_) => PayloadSyntax::Malformed,
    }
}

/// Parses `text` with `syn::parse_str::<syn::Lit>`, which also takes a
/// minus sign before a number. A failure to parse is `Absent`. Of a
/// `Lit::Int` it hands out `LitInt::base10_digits`,
/// `LitInt::base10_parse::<i32>` and `LitInt::suffix`, of a `Lit::Float`
/// `LitFloat::base10_digits` and `LitFloat::suffix`. The contract only
/// gives the outcome a name: the same text always reads the same.
#[verifier::external_body]
pub(crate) fn read_literal(text: &str) -> (literal: LiteralSyntax)
    ensures
        literal@ == literal_syntax(text@),
{
    match syn::parse_str::<syn::Lit>(text) {
        Ok(syn::Lit::Int(number)) => LiteralSyntax::Int {
            digits: number.base10_digits().to_owned(),
            value: number.base10_parse::<i32>().ok(),
            suffix: number.suffix().to_owned(),
        },
        Ok(syn::Lit::Float(number)) => LiteralSyntax::Float {
            digits: number.base10_digits().to_owned(),
            suffix: number.suffix().to_owned(),
        },
        Ok(_) => LiteralSyntax::Other,
        Err(_) => LiteralSyntax::Absent,
    }
}

/// Why a payload is no domain.
#[derive(Clone, Copy, Debug, PartialEq, Eq, Structural)]
pub enum RangeFault {
    /// It is no range between two numeric literals of one kind.
    Invalid,
    /// It is an expression of another sort.
    NotARange,
}

/// The suffixes an `Int32` end may carry: none, or that of the kind.
pub open spec fn int_suffix_allowed(suffix: Seq<char>) -> bool {
    suffix == ""@ || suffix == "i32"@
}

/// The suffixes that digits with a point or an exponent may carry: none,
/// or that of the kind.
pub open spec fn float_suffix_allowed(suffix: Seq<char>) -> bool {
    suffix == ""@ || suffix == "f64"@
}

/// The end that a literal stands for. Digits without a point or an
/// exponent are an `Int32` end where they carry no suffix or `i32` and their
/// value fits, and a `Float64` end where they carry the suffix `f64`. Digits
/// with a point or an exponent are a `Float64` end where they carry no
/// suffix or `f64`. Nothing else is an end.
pub open spec fn bound_of(literal: LiteralSyntaxView) -> Option<BoundView> {
    match literal {
        LiteralSyntaxView::Int { digits, value, suffix } => if suffix == "f64"@ {
            Some(BoundView::Float64(digits))
        } else if int_suffix_allowed(suffix) {
            match value {
                Some(value) => Some(BoundView::Int32(value)),
                None => None,
            }
        } else {
            None
        },
        LiteralSyntaxView::Float { digits, suffix } => if float_suffix_allowed(suffix) {
            Some(BoundView::Float64(digits))
        } else {
            None
        },
        _ => None,
    }
}

/// The texts of the two ends of a payload, where it is a range that has
/// both.
pub open spec fn ends_of(syntax: PayloadSyntaxView) -> Result<
    (Seq<char>, Seq<char>, bool),
    RangeFault,
> {
    match syntax {
        PayloadSyntaxView::Malformed => Err(RangeFault::Invalid),
        PayloadSyntaxView::Other => Err(RangeFault::NotARange),
        PayloadSyntaxView::Range { lower: Some(lower), upper: Some(upper), inclusive } => Ok(
            (lower, upper, inclusive),
        ),
        PayloadSyntaxView::Range { .. } => Err(RangeFault::Invalid),
    }
}

/// The range between two ends, where both are there and of one kind.
pub open spec fn range_between(
    lower: Option<BoundView>,
    upper: Option<BoundView>,
    inclusive: bool,
) -> Result<DomainRangeView, RangeFault> {
    match (lower, upper) {
        (Some(lower), Some(upper)) => if lower.kind() == upper.kind() {
            Ok(DomainRangeView { lower, upper, inclusive_upper: inclusive })
        } else {
            Err(RangeFault::Invalid)
        },
        _ => Err(RangeFault::Invalid),
    }
}

/// The domain that a payload states: `lower..upper` or `lower..=upper`
/// between two numeric literals of one kind.
pub open spec fn domain_of_payload(payload: Seq<char>) -> Result<DomainRangeView, RangeFault> {
    match ends_of(payload_syntax(payload)) {
        Err(fault) => Err(fault),
        Ok((lower, upper, inclusive)) => range_between(
            bound_of(literal_syntax(lower)),
            bound_of(literal_syntax(upper)),
            inclusive,
        ),
    }
}

/// Whether `text` reads as the literal `word`.
pub fn text_is(text: &String, word: &str) -> (same: bool)
    ensures
        same == (text@ == word@),
{
    let other = word.to_owned();
    *text == other
}

/// Judges a literal as one end of a range.
pub fn bound_from_literal(literal: &LiteralSyntax) -> (bound: Option<Bound>)
    ensures
        match bound {
            Some(b) => bound_of(literal@) == Some(b@),
            None => bound_of(literal@) is None,
        },
{
    match literal {
        LiteralSyntax::Int { digits, value, suffix } => {
            if text_is(suffix, "f64") {
                Some(Bound::Float64(digits.clone()))
            } else if text_is(suffix, "") || text_is(suffix, "i32") {
                match value {
                    Some(value) => Some(Bound::Int32(*value)),
                    None => None,
                }
            } else {
                None
            }
        },
        LiteralSyntax::Float { digits, suffix } => {
            if text_is(suffix, "") || text_is(suffix, "f64") {
                Some(Bound::Float64(digits.clone()))
            } else {
                None
            }
        },
        _ => None,
    }
}

/// Takes the two ends out of a payload that was read as an expression.
pub fn range_ends(syntax: &PayloadSyntax) -> (ends: Result<(String, String, bool), RangeFault>)
    ensures
        match ends {
            Ok((lower, upper, inclusive)) => ends_of(syntax@) == Ok::<
                (Seq<char>, Seq<char>, bool),
                RangeFault,
            >((lower@, upper@, inclusive)),
            Err(fault) => ends_of(syntax@) == Err::<(Seq<char>, Seq<char>, bool), RangeFault>(
                fault,
            ),
        },
{
    match syntax {
        PayloadSyntax::Malformed => Err(RangeFault::Invalid),
        PayloadSyntax::Other => Err(RangeFault::NotARange),
        PayloadSyntax::Range { lower: Some(lower), upper: Some(upper), inclusive } => Ok(
            (lower.clone(), upper.clone(), *inclusive),
        ),
        PayloadSyntax::Range { .. } => Err(RangeFault::Invalid),
    }
}

/// The model of an end that may be missing.
pub open spec fn option_view(bound: Option<Bound>) -> Option<BoundView> {
    match bound {
        Some(b) => Some(b@),
        None => None,
    }
}

/// Joins two ends into a range.
pub fn range_from_bounds(lower: Option<Bound>, upper: Option<Bound>, inclusive: bool) -> (range:
    Result<DomainRange, RangeFault>)
    ensures
        match range {
            Ok(r) => range_between(option_view(lower), option_view(upper), inclusive) == Ok::<
                DomainRangeView,
                RangeFault,
            >(r@) && r@.well_formed(),
            Err(fault) => range_between(option_view(lower), option_view(upper), inclusive) == Err::<
                DomainRangeView,
                RangeFault,
            >(fault),
        },
{
    match (lower, upper) {
        (Some(lower), Some(upper)) => {
            if lower.kind() == upper.kind() {
                Ok(DomainRange { lower, upper, inclusive_upper: inclusive })
            } else {
                Err(RangeFault::Invalid)
            }
        },
        _ => Err(RangeFault::Invalid),
    }
}

/// Reads the payload of a domain attribute as a range between two numeric
/// literals of one kind.
pub fn parse_domain(payload: &str) -> (domain: Result<DomainRange, RangeFault>)
    ensures
        match domain {
            Ok(d) => domain_of_payload(payload@) == Ok::<DomainRangeView, RangeFault>(d@)
                && d@.well_formed(),
            Err(fault) => domain_of_payload(payload@) == Err::<DomainRangeView, RangeFault>(fault),
        },
{
    let syntax = read_payload(payload);
    match range_ends(&syntax) {
        Err(fault) => Err(fault),
        Ok((lower, upper, inclusive)) => {
            let lower_literal = read_literal(lower.as_str());
            let upper_literal = read_literal(upper.as_str());
            range_from_bounds(
                bound_from_literal(&lower_literal),
                bound_from_literal(&upper_literal),
                inclusive,
            )
        },
    }
}

} // verus!
