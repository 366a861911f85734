//! The type dispatcher: from the type a field was declared with to its
//! numeric kind, which the field's domain must share.

use crate::decl::view_all;
use crate::error::{CompileError, CompileErrorView};
use crate::extract::batch_view;
use crate::gather::{gather, lemma_gather_failure, lemma_gather_success};
use crate::scalar::{DomainRange, DomainRangeView, NumericKind};
use crate::syntax::text_is;
use crate::validate::{ValidatedField, ValidatedFieldView};
use vstd::prelude::*;

verus! {

/// The specification of one field of a record: its name, its kind, the
/// payload of its domain attribute as written, and its domain.
#[derive(Clone, Debug, PartialEq, Eq)]
pub struct FieldSpec {
    pub name: String,
    pub kind: NumericKind,
    pub domain_expr: String,
    pub domain: DomainRange,
}

/// The mathematical model of a [`FieldSpec`].
pub struct FieldSpecView {
    pub name: Seq<char>,
    pub kind: NumericKind,
    pub domain_expr: Seq<char>,
    pub domain: DomainRangeView,
}

impl FieldSpecView {
    /// The two ends of the domain are of the field's kind.
    pub open spec fn well_formed(self) -> bool {
        self.domain.lower.kind() == self.kind && self.domain.upper.kind() == self.kind
    }
}

impl View for FieldSpec {
    type V = FieldSpecView;

    open spec fn view(&self) -> FieldSpecView {
        FieldSpecView {
            name: self.name@,
            kind: self.kind,
            domain_expr: self.domain_expr@,
            domain: self.domain@,
        }
    }
}

/// The schema of a record: its name and the specifications of its fields
/// in declaration order.
#[derive(Clone, Debug, PartialEq, Eq)]
pub struct RecordSchema {
    pub name: String,
    pub fields: Vec<FieldSpec>,
}

/// The mathematical model of a [`RecordSchema`].
pub struct RecordSchemaView {
    pub name: Seq<char>,
    pub fields: Seq<FieldSpecView>,
}

impl RecordSchemaView {
    /// Every field is well formed.
    pub open spec fn well_formed(self) -> bool {
        forall|i: int| 0 <= i < self.fields.len() ==> (#[trigger] self.fields[i]).well_formed()
    }
}

impl View for RecordSchema {
    type V = RecordSchemaView;

    open spec fn view(&self) -> RecordSchemaView {
        RecordSchemaView { name: self.name@, fields: view_all(self.fields@) }
    }
}

/// The kind that a type stands for. Only the two identifiers `i32` and
/// `f64` stand for one: no alias, no path and no other numeric type does.
pub open spec fn kind_of_type(declared_type: Seq<char>) -> Option<NumericKind> {
    if declared_type == "i32"@ {
        Some(NumericKind::Int32)
    } else if declared_type == "f64"@ {
        Some(NumericKind::Float64)
    } else {
        None
    }
}

/// One field dispatched: its type must stand for a kind, and its domain
/// must be a range of that kind.
pub open spec fn dispatch_field(field: ValidatedFieldView) -> Result<
    FieldSpecView,
    CompileErrorView,
> {
    match kind_of_type(field.declared_type) {
        None => Err(CompileErrorView::UnsupportedFieldType(field.name, field.declared_type)),
        Some(kind) => if field.domain.lower.kind() == kind && field.domain.upper.kind() == kind {
            Ok(
                FieldSpecView {
                    name: field.name,
                    kind,
                    domain_expr: field.domain_expr,
                    domain: field.domain,
                },
            )
        } else {
            Err(CompileErrorView::InvalidRangeExpression(field.name))
        },
    }
}

/// The outcome of dispatching each field of a batch, in order.
pub open spec fn dispatch_outcomes(fields: Seq<ValidatedFieldView>) -> Seq<
    Result<FieldSpecView, CompileErrorView>,
> {
    Seq::new(fields.len(), |i: int| dispatch_field(fields[i]))
}

/// The batch dispatched: every field in order, or the failure of the first
/// field that has one.
pub open spec fn dispatch_fields(fields: Seq<ValidatedFieldView>) -> Result<
    Seq<FieldSpecView>,
    CompileErrorView,
> {
    gather(dispatch_outcomes(fields))
}

/// Maps the type a field was declared with to its kind.
pub fn kind_for_type(declared_type: &String) -> (kind: Option<NumericKind>)
    ensures
        kind == kind_of_type(declared_type@),
{
    if text_is(declared_type, "i32") {
        Some(NumericKind::Int32)
    } else if text_is(declared_type, "f64") {
        Some(NumericKind::Float64)
    } else {
        None
    }
}

/// Whether two kinds are the same.
pub fn same_kind(left: NumericKind, right: NumericKind) -> (same: bool)
    ensures
        same == (left == right),
{
    match (left, right) {
        (NumericKind::Int32, NumericKind::Int32) => true,
        (NumericKind::Float64, NumericKind::Float64) => true,
        _ => false,
    }
}

/// Dispatches one field.
pub fn dispatch_one(field: &ValidatedField) -> (dispatched: Result<FieldSpec, CompileError>)
    ensures
        match dispatched {
            Ok(spec) => dispatch_field(field@) == Ok::<FieldSpecView, CompileErrorView>(spec@)
                && spec@.well_formed(),
            Err(error) => dispatch_field(field@) == Err::<FieldSpecView, CompileErrorView>(
                error@,
            ),
        },
{
    match kind_for_type(&field.declared_type) {
        None => Err(
            CompileError::UnsupportedFieldType(field.name.clone(), field.declared_type.clone()),
        ),
        Some(kind) => {
            if same_kind(field.domain.lower.kind(), kind) && same_kind(
                field.domain.upper.kind(),
                kind,
            ) {
                Ok(
                    FieldSpec {
                        name: field.name.clone(),
                        kind,
                        domain_expr: field.domain_expr.clone(),
                        domain: field.domain.duplicate(),
                    },
                )
            } else {
                Err(CompileError::InvalidRangeExpression(field.name.clone()))
            }
        },
    }
}

/// Dispatches a batch of fields, in order.
pub fn dispatch(fields: &Vec<ValidatedField>) -> (dispatched: Result<Vec<FieldSpec>, CompileError>)
    ensures
        batch_view(dispatched) == dispatch_fields(view_all(fields@)),
        match dispatched {
            Ok(specs) => forall|i: int|
                0 <= i < specs.len() ==> (#[trigger] specs@[i])@.well_formed(),
            Err(_) => true,
        },
{
    let ghost outcomes = dispatch_outcomes(view_all(fields@));
    let mut done: Vec<FieldSpec> = Vec::new();
    let mut i: usize = 0;
    while i < fields.len()
        invariant
            i <= fields.len(),
            done.len() == i,
            outcomes == dispatch_outcomes(view_all(fields@)),
            forall|j: int|
                0 <= j < i ==> (#[trigger] outcomes[j]) == Ok::<FieldSpecView, CompileErrorView>(
                    done@[j]@,
                ),
            forall|j: int| 0 <= j < i ==> (#[trigger] done@[j])@.well_formed(),
        decreases fields.len() - i,
    {
        assert(view_all(fields@)[i as int] == fields@[i as int]@);
        match dispatch_one(&fields[i]) {
            Ok(spec) => {
                done.push(spec);
            },
            Err(error) => {
                proof {
                    assert(outcomes[i as int] == Err::<FieldSpecView, CompileErrorView>(error@));
                    lemma_gather_failure(outcomes, i as int);
                }
                return Err(error);
            },
        }
        i += 1;
    }
    proof {
        lemma_gather_success(outcomes, view_all(done@));
    }
    Ok(done)
}

} // verus!
