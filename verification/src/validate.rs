//! The domain attribute validator: every field carries exactly one domain
//! attribute, and its payload is a range.

use crate::decl::{view_all, AttrDecl, AttrDeclView, AttrForm};
use crate::error::{CompileError, CompileErrorView};
use crate::extract::{batch_view, ExtractedField, ExtractedFieldView};
use crate::gather::{gather, lemma_gather_failure, lemma_gather_success};
use crate::scalar::{DomainRange, DomainRangeView};
use crate::syntax::{domain_of_payload, parse_domain, text_is, RangeFault};
use vstd::prelude::*;

verus! {

/// A field whose domain has been read: its name, its type as written, the
/// payload of its domain attribute and the range that the payload states.
#[derive(Clone, Debug, PartialEq, Eq)]
pub struct ValidatedField {
    pub name: String,
    pub declared_type: String,
    pub domain_expr: String,
    pub domain: DomainRange,
}

/// The mathematical model of a [`ValidatedField`].
pub struct ValidatedFieldView {
    pub name: Seq<char>,
    pub declared_type: Seq<char>,
    pub domain_expr: Seq<char>,
    pub domain: DomainRangeView,
}

impl View for ValidatedField {
    type V = ValidatedFieldView;

    open spec fn view(&self) -> ValidatedFieldView {
        ValidatedFieldView {
            name: self.name@,
            declared_type: self.declared_type@,
            domain_expr: self.domain_expr@,
            domain: self.domain@,
        }
    }
}

/// An attribute states a domain where it is a list named `domain`.
pub open spec fn is_domain_attr(attr: AttrDeclView) -> bool {
    attr.form == AttrForm::List && attr.name == "domain"@
}

/// [`is_domain_attr`] as a predicate.
pub open spec fn domain_pred() -> spec_fn(AttrDeclView) -> bool {
    |attr: AttrDeclView| is_domain_attr(attr)
}

/// The attributes that state a domain, in the order in which they stand.
pub open spec fn domain_attrs(attrs: Seq<AttrDeclView>) -> Seq<AttrDeclView> {
    attrs.filter(domain_pred())
}

/// The field with the domain that was read from `payload`, or the failure
/// that the fault stands for.
pub open spec fn admitted(
    field: ExtractedFieldView,
    payload: Seq<char>,
    parsed: Result<DomainRangeView, RangeFault>,
) -> Result<ValidatedFieldView, CompileErrorView> {
    match parsed {
        Ok(domain) => Ok(
            ValidatedFieldView {
                name: field.name,
                declared_type: field.declared_type,
                domain_expr: payload,
                domain,
            },
        ),
        Err(RangeFault::Invalid) => Err(CompileErrorView::InvalidRangeExpression(field.name)),
        Err(RangeFault::NotARange) => Err(CompileErrorView::ExpectedRangeGotOther(field.name)),
    }
}

/// One field validated. A field without a domain attribute fails, one with
/// several fails, and one with a single domain attribute is judged by its
/// payload.
pub open spec fn validate_field(field: ExtractedFieldView) -> Result<
    ValidatedFieldView,
    CompileErrorView,
> {
    let domains = domain_attrs(field.attrs);
    if domains.len() == 0 {
        Err(CompileErrorView::MissingDomainAttribute(field.name))
    } else if domains.len() > 1 {
        Err(CompileErrorView::MultipleDomainAttributes(field.name))
    } else {
        admitted(field, domains[0].payload, domain_of_payload(domains[0].payload))
    }
}

/// The outcome of validating each field of a batch, in order.
pub open spec fn validation_outcomes(fields: Seq<ExtractedFieldView>) -> Seq<
    Result<ValidatedFieldView, CompileErrorView>,
> {
    Seq::new(fields.len(), |i: int| validate_field(fields[i]))
}

/// The batch validated: every field in order, or the failure of the first
/// field that has one.
pub open spec fn validate_fields(fields: Seq<ExtractedFieldView>) -> Result<
    Seq<ValidatedFieldView>,
    CompileErrorView,
> {
    gather(validation_outcomes(fields))
}

/// Whether an attribute states a domain.
pub fn states_domain(attr: &AttrDecl) -> (yes: bool)
    ensures
        yes == is_domain_attr(attr@),
{
    match attr.form {
        AttrForm::List => text_is(&attr.name, "domain"),
        _ => false,
    }
}

/// Counts the attributes that state a domain and finds the place of the
/// first of them, which is 0 where there is none.
pub fn find_domain_attrs(attrs: &Vec<AttrDecl>) -> (found: (usize, usize))
    ensures
        found.0 == domain_attrs(view_all(attrs@)).len(),
        found.0 == 0 ==> found.1 == 0,
        found.0 > 0 ==> {
            &&& found.1 < attrs.len()
            &&& is_domain_attr(attrs@[found.1 as int]@)
            &&& forall|j: int| 0 <= j < found.1 ==> !is_domain_attr((#[trigger] attrs@[j])@)
            &&& domain_attrs(view_all(attrs@))[0] == attrs@[found.1 as int]@
        },
{
    let ghost all = view_all(attrs@);
    let mut count: usize = 0;
    let mut first: usize = 0;
    let mut i: usize = 0;
    proof {
        assert(all.take(0) =~= Seq::<AttrDeclView>::empty());
        Seq::<AttrDeclView>::empty().lemma_filter_len(domain_pred());
    }
    while i < attrs.len()
        invariant
            i <= attrs.len(),
            all == view_all(attrs@),
            count == all.take(i as int).filter(domain_pred()).len(),
            count <= i,
            count == 0 ==> first == 0,
            count == 0 ==> forall|j: int| 0 <= j < i ==> !is_domain_attr((#[trigger] attrs@[j])@),
            count > 0 ==> {
                &&& first < i
                &&& is_domain_attr(attrs@[first as int]@)
                &&& forall|j: int| 0 <= j < first ==> !is_domain_attr((#[trigger] attrs@[j])@)
                &&& all.take(i as int).filter(domain_pred())[0] == all[first as int]
            },
        decreases attrs.len() - i,
    {
        proof {
            all.lemma_take_succ_push(i as int);
            all.take(i as int).lemma_filter_push(all[i as int], domain_pred());
        }
        if states_domain(&attrs[i]) {
            if count == 0 {
                first = i;
            }
            count += 1;
        }
        i += 1;
    }
    proof {
        all.lemma_take_len();
    }
    (count, first)
}

/// Binds a domain that was read to its field, or names the field in the
/// failure.
pub fn admit_domain(
    field: &ExtractedField,
    payload: &String,
    parsed: Result<DomainRange, RangeFault>,
) -> (validated: Result<ValidatedField, CompileError>)
    ensures
        match validated {
            Ok(v) => admitted(field@, payload@, range_outcome_view(parsed)) == Ok::<
                ValidatedFieldView,
                CompileErrorView,
            >(v@),
            Err(error) => admitted(field@, payload@, range_outcome_view(parsed)) == Err::<
                ValidatedFieldView,
                CompileErrorView,
            >(error@),
        },
{
    match parsed {
        Ok(domain) => Ok(
            ValidatedField {
                name: field.name.clone(),
                declared_type: field.declared_type.clone(),
                domain_expr: payload.clone(),
                domain,
            },
        ),
        Err(RangeFault::Invalid) => Err(CompileError::InvalidRangeExpression(field.name.clone())),
        Err(RangeFault::NotARange) => Err(CompileError::ExpectedRangeGotOther(field.name.clone())),
    }
}

/// The model of the outcome of reading a payload.
pub open spec fn range_outcome_view(parsed: Result<DomainRange, RangeFault>) -> Result<
    DomainRangeView,
    RangeFault,
> {
    match parsed {
        Ok(domain) => Ok(domain@),
        Err(fault) => Err(fault),
    }
}

/// Validates one field.
pub fn validate_one(field: &ExtractedField) -> (validated: Result<ValidatedField, CompileError>)
    ensures
        match validated {
            Ok(v) => validate_field(field@) == Ok::<ValidatedFieldView, CompileErrorView>(v@)
                && v@.domain.well_formed(),
            Err(error) => validate_field(field@) == Err::<ValidatedFieldView, CompileErrorView>(
                error@,
            ),
        },
{
    let (count, first) = find_domain_attrs(&field.attrs);
    if count == 0 {
        Err(CompileError::MissingDomainAttribute(field.name.clone()))
    } else if count > 1 {
        Err(CompileError::MultipleDomainAttributes(field.name.clone()))
    } else {
        let payload = &field.attrs[first].payload;
        let parsed = parse_domain(payload.as_str());
        admit_domain(field, payload, parsed)
    }
}

/// Validates a batch of fields, in order.
pub fn validate(fields: &Vec<ExtractedField>) -> (validated: Result<
    Vec<ValidatedField>,
    CompileError,
>)
    ensures
        batch_view(validated) == validate_fields(view_all(fields@)),
{
    let ghost outcomes = validation_outcomes(view_all(fields@));
    let mut done: Vec<ValidatedField> = Vec::new();
    let mut i: usize = 0;
    while i < fields.len()
        invariant
            i <= fields.len(),
            done.len() == i,
            outcomes == validation_outcomes(view_all(fields@)),
            forall|j: int|
                0 <= j < i ==> (#[trigger] outcomes[j]) == Ok::<
                    ValidatedFieldView,
                    CompileErrorView,
                >(done@[j]@),
        decreases fields.len() - i,
    {
        assert(view_all(fields@)[i as int] == fields@[i as int]@);
        match validate_one(&fields[i]) {
            Ok(field) => {
                done.push(field);
            },
            Err(error) => {
                proof {
                    assert(outcomes[i as int] == Err::<ValidatedFieldView, CompileErrorView>(
                        error@,
                    ));
                    lemma_gather_failure(outcomes, i as int);
                }
                return Err(error);
            },
        }
        i += 1;
    }
    proof {
        lemma_gather_success(outcomes, view_all(done@));
    }
    Ok(done)
}

} // verus!
