//! The two generators: the chain of registrations that describes the
//! domains of a record, and the reads that rebuild an instance of it. Both
//! follow the declaration order of the fields, one entry per field.

use crate::decl::view_all;
use crate::dispatch::{FieldSpec, FieldSpecView, RecordSchema, RecordSchemaView};
use crate::scalar::{DomainRange, DomainRangeView, NumericKind};
use vstd::prelude::*;

verus! {

/// One registration against a domain builder: the range of a field, the
/// field's name and its kind, which selects the builder's operation. The
/// range is given as it was read and as it was written.
#[derive(Clone, Debug, PartialEq, Eq)]
pub struct DomainCall {
    pub field_name: String,
    pub kind: NumericKind,
    pub range: DomainRange,
    pub range_expr: String,
}

/// The mathematical model of a [`DomainCall`].
pub struct DomainCallView {
    pub field_name: Seq<char>,
    pub kind: NumericKind,
    pub range: DomainRangeView,
    pub range_expr: Seq<char>,
}

impl View for DomainCall {
    type V = DomainCallView;

    open spec fn view(&self) -> DomainCallView {
        DomainCallView {
            field_name: self.field_name@,
            kind: self.kind,
            range: self.range@,
            range_expr: self.range_expr@,
        }
    }
}

/// One read from a stream of scalars: the next value, of the given kind,
/// becomes the value of the named field.
#[derive(Clone, Debug, PartialEq, Eq)]
pub struct ReadOp {
    pub field_name: String,
    pub kind: NumericKind,
}

/// The mathematical model of a [`ReadOp`].
pub struct ReadOpView {
    pub field_name: Seq<char>,
    pub kind: NumericKind,
}

impl View for ReadOp {
    type V = ReadOpView;

    open spec fn view(&self) -> ReadOpView {
        ReadOpView { field_name: self.field_name@, kind: self.kind }
    }
}

/// What the compilation of a record yields: the registrations that
/// describe its domains and the reads that rebuild it, entry `i` of each
/// for field `i` of the record.
#[derive(Clone, Debug, PartialEq, Eq)]
pub struct GeneratedArtifacts {
    pub record_name: String,
    pub domain_builder_chain: Vec<DomainCall>,
    pub reconstruction_body: Vec<ReadOp>,
}

/// The mathematical model of [`GeneratedArtifacts`].
pub struct GeneratedArtifactsView {
    pub record_name: Seq<char>,
    pub domain_builder_chain: Seq<DomainCallView>,
    pub reconstruction_body: Seq<ReadOpView>,
}

impl GeneratedArtifactsView {
    /// The two chains have one entry per field, and entry `i` of each names
    /// the same field with the same kind, which is also the kind of the
    /// two ends of the range.
    pub open spec fn well_formed(self) -> bool {
        &&& self.domain_builder_chain.len() == self.reconstruction_body.len()
        &&& forall|i: int|
            #![trigger self.domain_builder_chain[i]]
            #![trigger self.reconstruction_body[i]]
            0 <= i < self.domain_builder_chain.len() ==> {
                &&& self.domain_builder_chain[i].field_name
                    == self.reconstruction_body[i].field_name
                &&& self.domain_builder_chain[i].kind == self.reconstruction_body[i].kind
                &&& self.domain_builder_chain[i].range.lower.kind()
                    == self.domain_builder_chain[i].kind
                &&& self.domain_builder_chain[i].range.upper.kind()
                    == self.domain_builder_chain[i].kind
            }
    }
}

impl View for GeneratedArtifacts {
    type V = GeneratedArtifactsView;

    open spec fn view(&self) -> GeneratedArtifactsView {
        GeneratedArtifactsView {
            record_name: self.record_name@,
            domain_builder_chain: view_all(self.domain_builder_chain@),
            reconstruction_body: view_all(self.reconstruction_body@),
        }
    }
}

/// The registration that describes one field.
pub open spec fn domain_call_of(field: FieldSpecView) -> DomainCallView {
    DomainCallView {
        field_name: field.name,
        kind: field.kind,
        range: field.domain,
        range_expr: field.domain_expr,
    }
}

/// The read that fills one field.
pub open spec fn read_op_of(field: FieldSpecView) -> ReadOpView {
    ReadOpView { field_name: field.name, kind: field.kind }
}

/// The registrations for the fields of a record, in declaration order.
pub open spec fn descriptor_chain(fields: Seq<FieldSpecView>) -> Seq<DomainCallView> {
    Seq::new(fields.len(), |i: int| domain_call_of(fields[i]))
}

/// The reads for the fields of a record, in declaration order.
pub open spec fn reconstruction_reads(fields: Seq<FieldSpecView>) -> Seq<ReadOpView> {
    Seq::new(fields.len(), |i: int| read_op_of(fields[i]))
}

/// What a schema compiles to.
pub open spec fn emitted(schema: RecordSchemaView) -> GeneratedArtifactsView {
    GeneratedArtifactsView {
        record_name: schema.name,
        domain_builder_chain: descriptor_chain(schema.fields),
        reconstruction_body: reconstruction_reads(schema.fields),
    }
}

/// Emits the registration that describes one field.
pub fn domain_call(field: &FieldSpec) -> (call: DomainCall)
    ensures
        call@ == domain_call_of(field@),
{
    DomainCall {
        field_name: field.name.clone(),
        kind: field.kind,
        range: field.domain.duplicate(),
        range_expr: field.domain_expr.clone(),
    }
}

/// Emits the read that fills one field.
pub fn read_op(field: &FieldSpec) -> (read: ReadOp)
    ensures
        read@ == read_op_of(field@),
{
    ReadOp { field_name: field.name.clone(), kind: field.kind }
}

/// Emits both chains for a schema in one pass over its fields, a
/// registration and a read for each field in turn.
pub fn emit(schema: &RecordSchema) -> (artifacts: GeneratedArtifacts)
    ensures
        artifacts@ == emitted(schema@),
        schema@.well_formed() ==> artifacts@.well_formed(),
{
    let mut chain: Vec<DomainCall> = Vec::new();
    let mut reads: Vec<ReadOp> = Vec::new();
    let mut i: usize = 0;
    while i < schema.fields.len()
        invariant
            i <= schema.fields.len(),
            chain.len() == i,
            reads.len() == i,
            forall|j: int| 0 <= j < i ==> (#[trigger] chain@[j])@ == domain_call_of(schema.fields@[j]@),
            forall|j: int| 0 <= j < i ==> (#[trigger] reads@[j])@ == read_op_of(schema.fields@[j]@),
        decreases schema.fields.len() - i,
    {
        chain.push(domain_call(&schema.fields[i]));
        reads.push(read_op(&schema.fields[i]));
        i += 1;
    }
    let artifacts = GeneratedArtifacts {
        record_name: schema.name.clone(),
        domain_builder_chain: chain,
        reconstruction_body: reads,
    };
    proof {
        assert(artifacts@.domain_builder_chain =~= descriptor_chain(schema@.fields));
        assert(artifacts@.reconstruction_body =~= reconstruction_reads(schema@.fields));
        if schema@.well_formed() {
            assert forall|i: int|
                #![trigger artifacts@.domain_builder_chain[i]]
                #![trigger artifacts@.reconstruction_body[i]]
                0 <= i < artifacts@.domain_builder_chain.len() implies {
                &&& artifacts@.domain_builder_chain[i].field_name
                    == artifacts@.reconstruction_body[i].field_name
                &&& artifacts@.domain_builder_chain[i].kind == artifacts@.reconstruction_body[i].kind
                &&& artifacts@.domain_builder_chain[i].range.lower.kind()
                    == artifacts@.domain_builder_chain[i].kind
                &&& artifacts@.domain_builder_chain[i].range.upper.kind()
                    == artifacts@.domain_builder_chain[i].kind
            } by {
                assert(schema@.fields[i].well_formed());
            }
        }
    }
    artifacts
}

} // verus!
