//! What holds of every compilation and of every reconstruction.

use crate::input_data::{
    consumed, read_outcomes, reconstructed, FieldValueView, ReadErrorView, RecordInstanceView,
};
use crate::decl::{DeclShape, FieldDeclView, RecordDecl, RecordDeclView};
use crate::dispatch::{dispatch_field, dispatch_fields, dispatch_outcomes, kind_of_type, FieldSpecView};
use crate::driver::{compiled, outcome_view};
use crate::emit::{DomainCallView, GeneratedArtifacts, GeneratedArtifactsView, ReadOpView};
use crate::error::{CompileError, CompileErrorView};
use crate::extract::{extract_field, extract_fields, extraction_outcomes, ExtractedFieldView};
use crate::gather::{
    is_first_failure, lemma_gather_failure_inverse, lemma_gather_success,
    lemma_gather_success_inverse,
};
use crate::scalar::{DomainRangeView, Scalar};
use crate::syntax::{domain_of_payload, RangeFault};
use crate::validate::{
    domain_attrs, validate_field, validate_fields, validation_outcomes, ValidatedFieldView,
};
use vstd::prelude::*;

verus! {

/// How entry `i` of both chains follows from field `i` of a declaration
/// that compiles: the field has a name, which both entries carry; its type
/// stands for a kind, which both entries carry and which the two ends of
/// the range share; and it has exactly one domain attribute, whose payload
/// the registration carries as written and as the range that it states.
pub open spec fn field_compiles_to(
    decl: RecordDeclView,
    artifacts: GeneratedArtifactsView,
    i: int,
) -> bool {
    let field = decl.fields[i];
    let call = artifacts.domain_builder_chain[i];
    let read = artifacts.reconstruction_body[i];
    &&& field.name == Some(call.field_name)
    &&& field.name == Some(read.field_name)
    &&& kind_of_type(field.declared_type) == Some(call.kind)
    &&& read.kind == call.kind
    &&& call.range.lower.kind() == call.kind
    &&& call.range.upper.kind() == call.kind
    &&& domain_attrs(field.attrs).len() == 1
    &&& call.range_expr == domain_attrs(field.attrs)[0].payload
    &&& domain_of_payload(call.range_expr) == Ok::<DomainRangeView, RangeFault>(call.range)
}

/// A declaration that compiles is a struct with named fields, the chains
/// carry its name and have one entry for each of its fields, and entry `i`
/// of each follows from field `i`.
pub proof fn lemma_compiled_follows_declaration(decl: RecordDeclView)
    requires
        compiled(decl) is Ok,
    ensures
        decl.shape == DeclShape::NamedStruct,
        compiled(decl)->Ok_0.record_name == decl.name,
        compiled(decl)->Ok_0.domain_builder_chain.len() == decl.fields.len(),
        compiled(decl)->Ok_0.reconstruction_body.len() == decl.fields.len(),
        forall|i: int|
            0 <= i < decl.fields.len() ==> #[trigger] field_compiles_to(
                decl,
                compiled(decl)->Ok_0,
                i,
            ),
{
    let extracted = extract_fields(decl)->Ok_0;
    let validated = validate_fields(extracted)->Ok_0;
    let fields = dispatch_fields(validated)->Ok_0;
    let artifacts = compiled(decl)->Ok_0;
    lemma_gather_success_inverse(extraction_outcomes(decl.fields));
    lemma_gather_success_inverse(validation_outcomes(extracted));
    lemma_gather_success_inverse(dispatch_outcomes(validated));
    assert forall|i: int| 0 <= i < decl.fields.len() implies #[trigger] field_compiles_to(
        decl,
        artifacts,
        i,
    ) by {
        assert(extraction_outcomes(decl.fields)[i] == Ok::<ExtractedFieldView, CompileErrorView>(
            extracted[i],
        ));
        assert(validation_outcomes(extracted)[i] == Ok::<ValidatedFieldView, CompileErrorView>(
            validated[i],
        ));
        assert(dispatch_outcomes(validated)[i] == Ok::<FieldSpecView, CompileErrorView>(fields[i]));
        assert(extract_field(decl.fields[i]) is Ok);
        assert(validate_field(extracted[i]) is Ok);
        assert(dispatch_field(validated[i]) is Ok);
    }
}

/// The domain descriptor, the record and the reconstruction have the same
/// number of entries.
pub proof fn lemma_chains_cover_fields(decl: RecordDeclView)
    requires
        compiled(decl) is Ok,
    ensures
        compiled(decl)->Ok_0.domain_builder_chain.len() == decl.fields.len(),
        compiled(decl)->Ok_0.reconstruction_body.len() == decl.fields.len(),
{
    lemma_compiled_follows_declaration(decl);
}

/// The names in the domain descriptor, and those in the reconstruction,
/// are the names of the declared fields in declaration order.
pub proof fn lemma_chains_keep_names(decl: RecordDeclView)
    requires
        compiled(decl) is Ok,
    ensures
        compiled(decl)->Ok_0.domain_builder_chain.map_values(
            |call: DomainCallView| Some(call.field_name),
        ) == decl.fields.map_values(|field: FieldDeclView| field.name),
        compiled(decl)->Ok_0.reconstruction_body.map_values(
            |read: ReadOpView| Some(read.field_name),
        ) == decl.fields.map_values(|field: FieldDeclView| field.name),
{
    lemma_compiled_follows_declaration(decl);
    let artifacts = compiled(decl)->Ok_0;
    assert forall|i: int| 0 <= i < decl.fields.len() implies decl.fields[i].name == Some(
        artifacts.domain_builder_chain[i].field_name,
    ) && decl.fields[i].name == Some(artifacts.reconstruction_body[i].field_name) by {
        assert(field_compiles_to(decl, artifacts, i));
    }
    assert(artifacts.domain_builder_chain.map_values(
        |call: DomainCallView| Some(call.field_name),
    ) =~= decl.fields.map_values(|field: FieldDeclView| field.name));
    assert(artifacts.reconstruction_body.map_values(
        |read: ReadOpView| Some(read.field_name),
    ) =~= decl.fields.map_values(|field: FieldDeclView| field.name));
}

/// What a compilation emits is well formed: the reconstruction reads the
/// count and the kinds that the descriptor registers, under the same
/// names, and every range lies between two ends of its field's kind.
pub proof fn lemma_compiled_is_well_formed(decl: RecordDeclView)
    requires
        compiled(decl) is Ok,
    ensures
        compiled(decl)->Ok_0.well_formed(),
{
    lemma_compiled_follows_declaration(decl);
    let artifacts = compiled(decl)->Ok_0;
    assert forall|i: int|
        #![trigger artifacts.domain_builder_chain[i]]
        #![trigger artifacts.reconstruction_body[i]]
        0 <= i < artifacts.domain_builder_chain.len() implies {
        &&& artifacts.domain_builder_chain[i].field_name
            == artifacts.reconstruction_body[i].field_name
        &&& artifacts.domain_builder_chain[i].kind == artifacts.reconstruction_body[i].kind
        &&& artifacts.domain_builder_chain[i].range.lower.kind()
            == artifacts.domain_builder_chain[i].kind
        &&& artifacts.domain_builder_chain[i].range.upper.kind()
            == artifacts.domain_builder_chain[i].kind
    } by {
        assert(field_compiles_to(decl, artifacts, i));
    }
}

/// Compiling is a function of the declaration: two compilations of
/// declarations with the same model have the same outcome, chains and
/// failures alike.
pub proof fn lemma_compile_is_repeatable(
    first: RecordDecl,
    second: RecordDecl,
    first_outcome: Result<GeneratedArtifacts, CompileError>,
    second_outcome: Result<GeneratedArtifacts, CompileError>,
)
    requires
        first@ == second@,
        outcome_view(first_outcome) == compiled(first@),
        outcome_view(second_outcome) == compiled(second@),
    ensures
        outcome_view(first_outcome) == outcome_view(second_outcome),
{
}

/// A record without fields compiles to two empty chains, and is rebuilt
/// from any stream without a value being read.
pub proof fn lemma_empty_record(decl: RecordDeclView, stream: Seq<Scalar>)
    requires
        decl.shape == DeclShape::NamedStruct,
        decl.fields.len() == 0,
    ensures
        compiled(decl) == Ok::<GeneratedArtifactsView, CompileErrorView>(
            GeneratedArtifactsView {
                record_name: decl.name,
                domain_builder_chain: Seq::empty(),
                reconstruction_body: Seq::empty(),
            },
        ),
        reconstructed(compiled(decl)->Ok_0, stream) == Ok::<RecordInstanceView, ReadErrorView>(
            RecordInstanceView { name: decl.name, fields: Seq::empty() },
        ),
        consumed(compiled(decl)->Ok_0.reconstruction_body, stream) == 0,
{
    lemma_gather_success(extraction_outcomes(decl.fields), Seq::<ExtractedFieldView>::empty());
    let extracted = Seq::<ExtractedFieldView>::empty();
    lemma_gather_success(validation_outcomes(extracted), Seq::<ValidatedFieldView>::empty());
    let validated = Seq::<ValidatedFieldView>::empty();
    lemma_gather_success(dispatch_outcomes(validated), Seq::<FieldSpecView>::empty());
    let artifacts = compiled(decl)->Ok_0;
    assert(artifacts.domain_builder_chain =~= Seq::empty());
    assert(artifacts.reconstruction_body =~= Seq::empty());
    lemma_gather_success(
        read_outcomes(artifacts.reconstruction_body, stream),
        Seq::<FieldValueView>::empty(),
    );
}

/// A stream that holds exactly one value of the right kind for each field,
/// in declaration order, rebuilds the record whose field `i` is value `i`
/// of the stream under the name of read `i`, and all of it is consumed.
pub proof fn lemma_stream_rebuilds_record(artifacts: GeneratedArtifactsView, stream: Seq<Scalar>)
    requires
        stream.len() == artifacts.reconstruction_body.len(),
        forall|i: int|
            0 <= i < stream.len() ==> (#[trigger] stream[i]).spec_kind()
                == artifacts.reconstruction_body[i].kind,
    ensures
        reconstructed(artifacts, stream) is Ok,
        reconstructed(artifacts, stream)->Ok_0.name == artifacts.record_name,
        reconstructed(artifacts, stream)->Ok_0.fields.len() == stream.len(),
        forall|i: int|
            0 <= i < stream.len() ==> (#[trigger] reconstructed(artifacts, stream)->Ok_0.fields[i])
                == (FieldValueView {
                name: artifacts.reconstruction_body[i].field_name,
                value: stream[i],
            }),
        consumed(artifacts.reconstruction_body, stream) == stream.len(),
{
    let reads = artifacts.reconstruction_body;
    let outcomes = read_outcomes(reads, stream);
    let fields = Seq::new(
        reads.len(),
        |i: int| FieldValueView { name: reads[i].field_name, value: stream[i] },
    );
    assert forall|i: int| 0 <= i < outcomes.len() implies (#[trigger] outcomes[i]) == Ok::<
        FieldValueView,
        ReadErrorView,
    >(fields[i]) by {
        assert(stream[i].spec_kind() == reads[i].kind);
    }
    lemma_gather_success(outcomes, fields);
    assert forall|k: int| !is_first_failure(outcomes, k) by {
        if 0 <= k < outcomes.len() {
            assert(outcomes[k] is Ok);
        }
    }
}

/// A field that can be compiled: it has a name, a supported type and
/// exactly one domain attribute, whose payload is a range of the kind that
/// the type stands for.
pub open spec fn field_is_valid(field: FieldDeclView) -> bool {
    let domains = domain_attrs(field.attrs);
    &&& field.name is Some
    &&& domains.len() == 1
    &&& domain_of_payload(domains[0].payload) is Ok
    &&& kind_of_type(field.declared_type) == Some(
        domain_of_payload(domains[0].payload)->Ok_0.kind(),
    )
}

/// A declaration that can be compiled: a struct with named fields, each of
/// which is valid.
pub open spec fn declaration_is_valid(decl: RecordDeclView) -> bool {
    &&& decl.shape == DeclShape::NamedStruct
    &&& forall|i: int| 0 <= i < decl.fields.len() ==> field_is_valid(#[trigger] decl.fields[i])
}

/// A declaration compiles exactly when it is valid.
pub proof fn lemma_compiles_exactly_when_valid(decl: RecordDeclView)
    ensures
        compiled(decl) is Ok <==> declaration_is_valid(decl),
{
    if compiled(decl) is Ok {
        lemma_compiled_follows_declaration(decl);
        assert forall|i: int| 0 <= i < decl.fields.len() implies field_is_valid(
            #[trigger] decl.fields[i],
        ) by {
            assert(field_compiles_to(decl, compiled(decl)->Ok_0, i));
        }
    }
    if declaration_is_valid(decl) {
        let extracted = Seq::new(
            decl.fields.len(),
            |i: int|
                ExtractedFieldView {
                    name: decl.fields[i].name->Some_0,
                    declared_type: decl.fields[i].declared_type,
                    attrs: decl.fields[i].attrs,
                },
        );
        assert forall|i: int| 0 <= i < decl.fields.len() implies (#[trigger] extraction_outcomes(
            decl.fields,
        )[i]) == Ok::<ExtractedFieldView, CompileErrorView>(extracted[i]) by {
            assert(field_is_valid(decl.fields[i]));
        }
        lemma_gather_success(extraction_outcomes(decl.fields), extracted);
        let validated = Seq::new(
            decl.fields.len(),
            |i: int|
                ValidatedFieldView {
                    name: extracted[i].name,
                    declared_type: extracted[i].declared_type,
                    domain_expr: domain_attrs(extracted[i].attrs)[0].payload,
                    domain: domain_of_payload(domain_attrs(extracted[i].attrs)[0].payload)->Ok_0,
                },
        );
        assert forall|i: int| 0 <= i < extracted.len() implies (#[trigger] validation_outcomes(
            extracted,
        )[i]) == Ok::<ValidatedFieldView, CompileErrorView>(validated[i]) by {
            assert(field_is_valid(decl.fields[i]));
        }
        lemma_gather_success(validation_outcomes(extracted), validated);
        let fields = Seq::new(
            decl.fields.len(),
            |i: int|
                FieldSpecView {
                    name: validated[i].name,
                    kind: validated[i].domain.kind(),
                    domain_expr: validated[i].domain_expr,
                    domain: validated[i].domain,
                },
        );
        assert forall|i: int| 0 <= i < validated.len() implies (#[trigger] dispatch_outcomes(
            validated,
        )[i]) == Ok::<FieldSpecView, CompileErrorView>(fields[i]) by {
            assert(field_is_valid(decl.fields[i]));
        }
        lemma_gather_success(dispatch_outcomes(validated), fields);
    }
}

/// A failure that is about a field names a field of the declaration; the
/// two failures that name none are about the shape of the declaration.
pub proof fn lemma_failure_names_declared_field(decl: RecordDeclView)
    requires
        compiled(decl) is Err,
    ensures
        match compiled(decl)->Err_0.field() {
            Some(name) => exists|i: int|
                0 <= i < decl.fields.len() && (#[trigger] decl.fields[i]).name == Some(name),
            None => compiled(decl)->Err_0 is NotARecord || compiled(decl)->Err_0 is UnnamedFields,
        },
{
    if decl.shape != DeclShape::NamedStruct {
    } else if extract_fields(decl) is Err {
        let i = lemma_gather_failure_inverse(extraction_outcomes(decl.fields));
    } else {
        let extracted = extract_fields(decl)->Ok_0;
        lemma_gather_success_inverse(extraction_outcomes(decl.fields));
        if validate_fields(extracted) is Err {
            let i = lemma_gather_failure_inverse(validation_outcomes(extracted));
            assert(extraction_outcomes(decl.fields)[i] == Ok::<
                ExtractedFieldView,
                CompileErrorView,
            >(extracted[i]));
            assert(decl.fields[i].name == Some(extracted[i].name));
        } else {
            let validated = validate_fields(extracted)->Ok_0;
            lemma_gather_success_inverse(validation_outcomes(extracted));
            let i = lemma_gather_failure_inverse(dispatch_outcomes(validated));
            assert(extraction_outcomes(decl.fields)[i] == Ok::<
                ExtractedFieldView,
                CompileErrorView,
            >(extracted[i]));
            assert(validation_outcomes(extracted)[i] == Ok::<
                ValidatedFieldView,
                CompileErrorView,
            >(validated[i]));
            assert(decl.fields[i].name == Some(validated[i].name));
        }
    }
}

} // verus!
