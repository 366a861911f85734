//! The field spec extractor: from a declaration to its named fields.

use crate::decl::{view_all, AttrDecl, AttrDeclView, DeclShape, FieldDecl, FieldDeclView, RecordDecl, RecordDeclView};
use crate::error::{CompileError, CompileErrorView};
use crate::gather::{gather, lemma_gather_failure, lemma_gather_success};
use vstd::prelude::*;

verus! {

/// A field of a record: its name, its type as written and its attributes
/// in order, none of them read yet.
#[derive(Clone, Debug, PartialEq, Eq)]
pub struct ExtractedField {
    pub name: String,
    pub declared_type: String,
    pub attrs: Vec<AttrDecl>,
}

/// The mathematical model of an [`ExtractedField`].
pub struct ExtractedFieldView {
    pub name: Seq<char>,
    pub declared_type: Seq<char>,
    pub attrs: Seq<AttrDeclView>,
}

impl View for ExtractedField {
    type V = ExtractedFieldView;

    open spec fn view(&self) -> ExtractedFieldView {
        ExtractedFieldView {
            name: self.name@,
            declared_type: self.declared_type@,
            attrs: view_all(self.attrs@),
        }
    }
}

/// The model of the outcome of a step that works on a batch of fields.
pub open spec fn batch_view<T: View>(outcome: Result<Vec<T>, CompileError>) -> Result<
    Seq<T::V>,
    CompileErrorView,
> {
    match outcome {
        Ok(items) => Ok(view_all(items@)),
        Err(error) => Err(error@),
    }
}

/// One field extracted: it must have a name.
pub open spec fn extract_field(field: FieldDeclView) -> Result<
    ExtractedFieldView,
    CompileErrorView,
> {
    match field.name {
        Some(name) => Ok(
            ExtractedFieldView { name, declared_type: field.declared_type, attrs: field.attrs },
        ),
        None => Err(CompileErrorView::UnnamedFields),
    }
}

/// The outcome of extracting each field of a batch, in order.
pub open spec fn extraction_outcomes(fields: Seq<FieldDeclView>) -> Seq<
    Result<ExtractedFieldView, CompileErrorView>,
> {
    Seq::new(fields.len(), |i: int| extract_field(fields[i]))
}

/// The fields of a declaration, in declaration order. Only a struct with
/// named fields is a record; it may have no field at all. Every field of it
/// must have a name.
pub open spec fn extract_fields(decl: RecordDeclView) -> Result<
    Seq<ExtractedFieldView>,
    CompileErrorView,
> {
    if decl.shape != DeclShape::NamedStruct {
        Err(CompileErrorView::NotARecord)
    } else {
        gather(extraction_outcomes(decl.fields))
    }
}

/// A copy of one attribute.
pub fn duplicate_attr(attr: &AttrDecl) -> (copy: AttrDecl)
    ensures
        copy@ == attr@,
{
    AttrDecl { name: attr.name.clone(), form: attr.form, payload: attr.payload.clone() }
}

/// A copy of the attributes of a field, in order.
pub fn duplicate_attrs(attrs: &Vec<AttrDecl>) -> (copy: Vec<AttrDecl>)
    ensures
        view_all(copy@) == view_all(attrs@),
{
    let mut copy: Vec<AttrDecl> = Vec::new();
    let mut i: usize = 0;
    while i < attrs.len()
        invariant
            i <= attrs.len(),
            copy.len() == i,
            forall|j: int| 0 <= j < i ==> (#[trigger] copy@[j])@ == attrs@[j]@,
        decreases attrs.len() - i,
    {
        copy.push(duplicate_attr(&attrs[i]));
        i += 1;
    }
    assert(view_all(copy@) =~= view_all(attrs@));
    copy
}

/// Extracts one field.
pub fn extract_one(field: &FieldDecl) -> (extracted: Result<ExtractedField, CompileError>)
    ensures
        match extracted {
            Ok(e) => extract_field(field@) == Ok::<ExtractedFieldView, CompileErrorView>(e@),
            Err(error) => extract_field(field@) == Err::<ExtractedFieldView, CompileErrorView>(
                error@,
            ),
        },
{
    match &field.name {
        Some(name) => Ok(
            ExtractedField {
                name: name.clone(),
                declared_type: field.declared_type.clone(),
                attrs: duplicate_attrs(&field.attrs),
            },
        ),
        None => Err(CompileError::UnnamedFields),
    }
}

/// Extracts the fields of a declaration, in declaration order.
pub fn extract(decl: &RecordDecl) -> (extracted: Result<Vec<ExtractedField>, CompileError>)
    ensures
        batch_view(extracted) == extract_fields(decl@),
{
    match decl.shape {
        DeclShape::NamedStruct => {},
        _ => {
            return Err(CompileError::NotARecord);
        },
    }
    let ghost outcomes = extraction_outcomes(decl@.fields);
    let mut fields: Vec<ExtractedField> = Vec::new();
    let mut i: usize = 0;
    while i < decl.fields.len()
        invariant
            i <= decl.fields.len(),
            fields.len() == i,
            decl.shape == DeclShape::NamedStruct,
            outcomes == extraction_outcomes(decl@.fields),
            forall|j: int|
                0 <= j < i ==> (#[trigger] outcomes[j]) == Ok::<
                    ExtractedFieldView,
                    CompileErrorView,
                >(fields@[j]@),
        decreases decl.fields.len() - i,
    {
        assert(decl@.fields[i as int] == decl.fields@[i as int]@);
        match extract_one(&decl.fields[i]) {
            Ok(field) => {
                fields.push(field);
            },
            Err(error) => {
                proof {
                    assert(outcomes[i as int] == Err::<ExtractedFieldView, CompileErrorView>(
                        error@,
                    ));
                    lemma_gather_failure(outcomes, i as int);
                }
                return Err(error);
            },
        }
        i += 1;
    }
    proof {
        lemma_gather_success(outcomes, view_all(fields@));
    }
    Ok(fields)
}

} // verus!
