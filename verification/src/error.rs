//! The ways in which the compilation of a record fails.

use vstd::prelude::*;
use vstd::string::StringExecFns;

verus! {

/// Why a record could not be compiled. Every failure ends the compilation:
/// nothing is emitted for a record that has one.
#[derive(Clone, Debug, PartialEq, Eq)]
pub enum CompileError {
    /// The declaration is not a struct with named fields.
    NotARecord,
    /// A field of the record has no name.
    UnnamedFields,
    /// The named field carries no domain attribute.
    MissingDomainAttribute(String),
    /// The named field carries more than one domain attribute.
    MultipleDomainAttributes(String),
    /// The domain of the named field is no range between two numeric
    /// literals of the field's kind.
    InvalidRangeExpression(String),
    /// The domain of the named field is an expression, but not a range.
    ExpectedRangeGotOther(String),
    /// The named field has the named type, which is not a supported kind.
    UnsupportedFieldType(String, String),
}

/// The mathematical model of a [`CompileError`].
pub enum CompileErrorView {
    NotARecord,
    UnnamedFields,
    MissingDomainAttribute(Seq<char>),
    MultipleDomainAttributes(Seq<char>),
    InvalidRangeExpression(Seq<char>),
    ExpectedRangeGotOther(Seq<char>),
    UnsupportedFieldType(Seq<char>, Seq<char>),
}

impl View for CompileError {
    type V = CompileErrorView;

    open spec fn view(&self) -> CompileErrorView {
        match *self {
            CompileError::NotARecord => CompileErrorView::NotARecord,
            CompileError::UnnamedFields => CompileErrorView::UnnamedFields,
            CompileError::MissingDomainAttribute(field) => CompileErrorView::MissingDomainAttribute(
                field@,
            ),
            CompileError::MultipleDomainAttributes(field) => {
                CompileErrorView::MultipleDomainAttributes(field@)
            },
            CompileError::InvalidRangeExpression(field) => CompileErrorView::InvalidRangeExpression(
                field@,
            ),
            CompileError::ExpectedRangeGotOther(field) => CompileErrorView::ExpectedRangeGotOther(
                field@,
            ),
            CompileError::UnsupportedFieldType(field, declared_type) => {
                CompileErrorView::UnsupportedFieldType(field@, declared_type@)
            },
        }
    }
}

impl CompileErrorView {
    /// The field that the failure is about, where it is about one.
    pub open spec fn field(self) -> Option<Seq<char>> {
        match self {
            CompileErrorView::NotARecord => None,
            CompileErrorView::UnnamedFields => None,
            CompileErrorView::MissingDomainAttribute(field) => Some(field),
            CompileErrorView::MultipleDomainAttributes(field) => Some(field),
            CompileErrorView::InvalidRangeExpression(field) => Some(field),
            CompileErrorView::ExpectedRangeGotOther(field) => Some(field),
            CompileErrorView::UnsupportedFieldType(field, _) => Some(field),
        }
    }
}

impl CompileErrorView {
    /// The message that reports the failure: it names the rule that was
    /// broken and, where the failure is about a field, the field.
    pub open spec fn message(self) -> Seq<char> {
        match self {
            CompileErrorView::NotARecord => "only a struct can be compiled"@,
            CompileErrorView::UnnamedFields => "the struct needs to have named fields"@,
            CompileErrorView::MissingDomainAttribute(field) => "field "@ + field
                + " should contain the attribute #[domain(range)]"@,
            CompileErrorView::MultipleDomainAttributes(field) => "field "@ + field
                + " should contain only one domain attribute"@,
            CompileErrorView::InvalidRangeExpression(field) => "field "@ + field
                + " should have a range between two literals of its type as its domain"@,
            CompileErrorView::ExpectedRangeGotOther(field) => "field "@ + field
                + " should have a range as its domain"@,
            CompileErrorView::UnsupportedFieldType(field, declared_type) => "field "@ + field
                + " has the type "@ + declared_type + ", but only i32 and f64 are supported"@,
        }
    }
}

impl CompileError {
    /// The message that reports the failure.
    pub fn message(&self) -> (text: String)
        ensures
            text@ == self@.message(),
    {
        match self {
            CompileError::NotARecord => "only a struct can be compiled".to_owned(),
            CompileError::UnnamedFields => "the struct needs to have named fields".to_owned(),
            CompileError::MissingDomainAttribute(field) => "field ".to_owned().concat(
                field.as_str(),
            ).concat(" should contain the attribute #[domain(range)]"),
            CompileError::MultipleDomainAttributes(field) => "field ".to_owned().concat(
                field.as_str(),
            ).concat(" should contain only one domain attribute"),
            CompileError::InvalidRangeExpression(field) => "field ".to_owned().concat(
                field.as_str(),
            ).concat(" should have a range between two literals of its type as its domain"),
            CompileError::ExpectedRangeGotOther(field) => "field ".to_owned().concat(
                field.as_str(),
            ).concat(" should have a range as its domain"),
            CompileError::UnsupportedFieldType(field, declared_type) => "field ".to_owned().concat(
                field.as_str(),
            ).concat(" has the type ").concat(declared_type.as_str()).concat(
                ", but only i32 and f64 are supported",
            ),
        }
    }

    /// The name of the offending field, where the failure is about one.
    pub fn field(&self) -> (name: Option<String>)
        ensures
            match name {
                Some(n) => self@.field() == Some(n@),
                None => self@.field() is None,
            },
    {
        match self {
            CompileError::NotARecord => None,
            CompileError::UnnamedFields => None,
            CompileError::MissingDomainAttribute(field) => Some(field.clone()),
            CompileError::MultipleDomainAttributes(field) => Some(field.clone()),
            CompileError::InvalidRangeExpression(field) => Some(field.clone()),
            CompileError::ExpectedRangeGotOther(field) => Some(field.clone()),
            CompileError::UnsupportedFieldType(field, _) => Some(field.clone()),
        }
    }
}

} // verus!
