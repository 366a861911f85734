//! The two operations that a compiled record offers: registering its
//! domains with a builder, and rebuilding an instance of it from a stream
//! of scalars. Both walk the chains that the compilation emitted.

use crate::decl::view_all;
use crate::emit::{DomainCallView, GeneratedArtifacts, GeneratedArtifactsView, ReadOp, ReadOpView};
use crate::gather::{
    gather, is_first_failure, lemma_first_failure_unique, lemma_gather_failure,
    lemma_gather_success,
};
use crate::scalar::{DomainRange, DomainRangeView, NumericKind, Scalar};
use vstd::prelude::*;

verus! {

/// One range registered with a builder: the field it is for, the kind of
/// the operation that registered it, and the range.
#[derive(Clone, Debug, PartialEq, Eq)]
pub struct DomainEntry {
    pub name: String,
    pub kind: NumericKind,
    pub range: DomainRange,
}

/// The mathematical model of a [`DomainEntry`].
pub struct DomainEntryView {
    pub name: Seq<char>,
    pub kind: NumericKind,
    pub range: DomainRangeView,
}

impl View for DomainEntry {
    type V = DomainEntryView;

    open spec fn view(&self) -> DomainEntryView {
        DomainEntryView { name: self.name@, kind: self.kind, range: self.range@ }
    }
}

/// Accumulates the ranges of a search space, in the order in which they
/// are registered.
#[derive(Clone, Debug, PartialEq, Eq)]
pub struct DomainBuilder {
    pub entries: Vec<DomainEntry>,
}

impl View for DomainBuilder {
    type V = Seq<DomainEntryView>;

    open spec fn view(&self) -> Seq<DomainEntryView> {
        view_all(self.entries@)
    }
}

impl DomainBuilder {
    /// A builder with nothing registered.
    pub fn new() -> (builder: DomainBuilder)
        ensures
            builder@ == Seq::<DomainEntryView>::empty(),
    {
        let builder = DomainBuilder { entries: Vec::new() };
        assert(builder@ =~= Seq::<DomainEntryView>::empty());
        builder
    }

    /// Registers a range of `Int32` values for the named field.
    pub fn add_int32_range(self, range: DomainRange, name: String) -> (builder: DomainBuilder)
        ensures
            builder@ == self@.push(
                DomainEntryView { name: name@, kind: NumericKind::Int32, range: range@ },
            ),
    {
        let mut entries = self.entries;
        entries.push(DomainEntry { name, kind: NumericKind::Int32, range });
        let builder = DomainBuilder { entries };
        assert(builder@ =~= self@.push(
            DomainEntryView { name: name@, kind: NumericKind::Int32, range: range@ },
        ));
        builder
    }

    /// Registers a range of `Float64` values for the named field.
    pub fn add_float64_range(self, range: DomainRange, name: String) -> (builder: DomainBuilder)
        ensures
            builder@ == self@.push(
                DomainEntryView { name: name@, kind: NumericKind::Float64, range: range@ },
            ),
    {
        let mut entries = self.entries;
        entries.push(DomainEntry { name, kind: NumericKind::Float64, range });
        let builder = DomainBuilder { entries };
        assert(builder@ =~= self@.push(
            DomainEntryView { name: name@, kind: NumericKind::Float64, range: range@ },
        ));
        builder
    }
}

/// What one registration adds to a builder.
pub open spec fn entry_of(call: DomainCallView) -> DomainEntryView {
    DomainEntryView { name: call.field_name, kind: call.kind, range: call.range }
}

/// What a chain of registrations adds to a builder, in order.
pub open spec fn entries_of(chain: Seq<DomainCallView>) -> Seq<DomainEntryView> {
    Seq::new(chain.len(), |i: int| entry_of(chain[i]))
}

/// Registers the domains of a compiled record with `builder`: one range
/// per field, in declaration order, behind what the builder already held.
pub fn get_domains(artifacts: &GeneratedArtifacts, builder: DomainBuilder) -> (filled:
    DomainBuilder)
    ensures
        filled@ == builder@ + entries_of(artifacts@.domain_builder_chain),
{
    let ghost before = builder@;
    let ghost chain = artifacts@.domain_builder_chain;
    let mut filled = builder;
    let mut i: usize = 0;
    assert(filled@ =~= before + entries_of(chain).take(0));
    while i < artifacts.domain_builder_chain.len()
        invariant
            i <= artifacts.domain_builder_chain.len(),
            chain == artifacts@.domain_builder_chain,
            filled@ == before + entries_of(chain).take(i as int),
        decreases artifacts.domain_builder_chain.len() - i,
    {
        let call = &artifacts.domain_builder_chain[i];
        assert(chain[i as int] == call@);
        let ghost previous = filled@;
        filled = match call.kind {
            NumericKind::Int32 => filled.add_int32_range(
                call.range.duplicate(),
                call.field_name.clone(),
            ),
            NumericKind::Float64 => filled.add_float64_range(
                call.range.duplicate(),
                call.field_name.clone(),
            ),
        };
        assert(filled@ == previous.push(entry_of(call@)));
        assert(filled@ =~= before + entries_of(chain).take(i as int + 1));
        i += 1;
    }
    assert(entries_of(chain).take(i as int) =~= entries_of(chain));
    filled
}

/// Why a single read from a stream fails.
#[derive(Clone, Copy, Debug, PartialEq, Eq, Structural)]
pub enum ReadFault {
    /// The stream has no value left.
    Exhausted,
    /// The next value is of another kind than the one asked for.
    KindMismatch,
}

/// A sequential source of scalars. Its model is the sequence of values
/// that are still to be read.
#[derive(Clone, Debug, PartialEq, Eq)]
pub struct InputDeserializer {
    values: Vec<Scalar>,
    position: usize,
}

impl View for InputDeserializer {
    type V = Seq<Scalar>;

    closed spec fn view(&self) -> Seq<Scalar> {
        if self.position <= self.values@.len() {
            self.values@.skip(self.position as int)
        } else {
            Seq::empty()
        }
    }
}

impl InputDeserializer {
    /// A source that yields `values` in order.
    pub fn new(values: Vec<Scalar>) -> (stream: InputDeserializer)
        ensures
            stream@ == values@,
    {
        let stream = InputDeserializer { values, position: 0 };
        assert(stream@ =~= values@);
        stream
    }

    /// The number of values that are still to be read.
    pub fn remaining(&self) -> (count: usize)
        ensures
            count == self@.len(),
    {
        if self.position <= self.values.len() {
            self.values.len() - self.position
        } else {
            0
        }
    }

    /// Reads the next value, where it is an `Int32`. A read that fails
    /// consumes nothing.
    pub fn next_int32(&mut self) -> (read: Result<i32, ReadFault>)
        ensures
            match read {
                Ok(value) => old(self)@.len() > 0 && old(self)@[0] == Scalar::Int32(value)
                    && final(self)@ == old(self)@.skip(1),
                Err(ReadFault::Exhausted) => old(self)@.len() == 0 && final(self)@ == old(self)@,
                Err(ReadFault::KindMismatch) => old(self)@.len() > 0 && old(self)@[0] is Float64
                    && final(self)@ == old(self)@,
            },
    {
        if self.position >= self.values.len() {
            return Err(ReadFault::Exhausted);
        }
        match self.values[self.position] {
            Scalar::Int32(value) => {
                self.position = self.position + 1;
                assert(final(self)@ =~= old(self)@.skip(1));
                Ok(value)
            },
            Scalar::Float64(_) => Err(ReadFault::KindMismatch),
        }
    }

    /// Reads the next value, where it is a `Float64`, and gives its bits.
    /// A read that fails consumes nothing.
    pub fn next_float64(&mut self) -> (read: Result<u64, ReadFault>)
        ensures
            match read {
                Ok(bits) => old(self)@.len() > 0 && old(self)@[0] == Scalar::Float64(bits)
                    && final(self)@ == old(self)@.skip(1),
                Err(ReadFault::Exhausted) => old(self)@.len() == 0 && final(self)@ == old(self)@,
                Err(ReadFault::KindMismatch) => old(self)@.len() > 0 && old(self)@[0] is Int32
                    && final(self)@ == old(self)@,
            },
    {
        if self.position >= self.values.len() {
            return Err(ReadFault::Exhausted);
        }
        match self.values[self.position] {
            Scalar::Float64(bits) => {
                self.position = self.position + 1;
                assert(final(self)@ =~= old(self)@.skip(1));
                Ok(bits)
            },
            Scalar::Int32(_) => Err(ReadFault::KindMismatch),
        }
    }
}

/// The value of one field of a rebuilt record.
#[derive(Clone, Debug, PartialEq, Eq)]
pub struct FieldValue {
    pub name: String,
    pub value: Scalar,
}

/// The mathematical model of a [`FieldValue`].
pub struct FieldValueView {
    pub name: Seq<char>,
    pub value: Scalar,
}

impl View for FieldValue {
    type V = FieldValueView;

    open spec fn view(&self) -> FieldValueView {
        FieldValueView { name: self.name@, value: self.value }
    }
}

/// An instance of a record: the values of its fields, in declaration
/// order.
#[derive(Clone, Debug, PartialEq, Eq)]
pub struct RecordInstance {
    pub name: String,
    pub fields: Vec<FieldValue>,
}

/// The mathematical model of a [`RecordInstance`].
pub struct RecordInstanceView {
    pub name: Seq<char>,
    pub fields: Seq<FieldValueView>,
}

impl View for RecordInstance {
    type V = RecordInstanceView;

    open spec fn view(&self) -> RecordInstanceView {
        RecordInstanceView { name: self.name@, fields: view_all(self.fields@) }
    }
}

/// Why a record could not be rebuilt from a stream.
#[derive(Clone, Debug, PartialEq, Eq)]
pub enum ReadError {
    /// The stream ended before the named field was read.
    Exhausted(String),
    /// The value that the stream held for the named field is of another
    /// kind than the field.
    KindMismatch(String),
}

/// The mathematical model of a [`ReadError`].
pub enum ReadErrorView {
    Exhausted(Seq<char>),
    KindMismatch(Seq<char>),
}

impl View for ReadError {
    type V = ReadErrorView;

    open spec fn view(&self) -> ReadErrorView {
        match *self {
            ReadError::Exhausted(field) => ReadErrorView::Exhausted(field@),
            ReadError::KindMismatch(field) => ReadErrorView::KindMismatch(field@),
        }
    }
}

/// What one read yields when `next` is the value that the stream holds for
/// it, if it holds one.
pub open spec fn read_of(read: ReadOpView, next: Option<Scalar>) -> Result<
    FieldValueView,
    ReadErrorView,
> {
    match next {
        None => Err(ReadErrorView::Exhausted(read.field_name)),
        Some(value) => if value.spec_kind() == read.kind {
            Ok(FieldValueView { name: read.field_name, value })
        } else {
            Err(ReadErrorView::KindMismatch(read.field_name))
        },
    }
}

/// The value at place `i` of a stream, if there is one.
pub open spec fn value_at(stream: Seq<Scalar>, i: int) -> Option<Scalar> {
    if 0 <= i < stream.len() {
        Some(stream[i])
    } else {
        None
    }
}

/// What each read of a chain yields on a stream: read `i` takes value `i`.
pub open spec fn read_outcomes(reads: Seq<ReadOpView>, stream: Seq<Scalar>) -> Seq<
    Result<FieldValueView, ReadErrorView>,
> {
    Seq::new(reads.len(), |i: int| read_of(reads[i], value_at(stream, i)))
}

/// The record that a stream rebuilds: field `i` is value `i` of the
/// stream, where the stream holds a value of the right kind for every
/// field. Else the failure of the first read that fails.
pub open spec fn reconstructed(artifacts: GeneratedArtifactsView, stream: Seq<Scalar>) -> Result<
    RecordInstanceView,
    ReadErrorView,
> {
    match gather(read_outcomes(artifacts.reconstruction_body, stream)) {
        Ok(fields) => Ok(RecordInstanceView { name: artifacts.record_name, fields }),
        Err(error) => Err(error),
    }
}

/// The number of values that rebuilding consumes: one for each read that
/// succeeds, up to the first that fails.
pub open spec fn consumed(reads: Seq<ReadOpView>, stream: Seq<Scalar>) -> int {
    if exists|i: int| is_first_failure(read_outcomes(reads, stream), i) {
        choose|i: int| is_first_failure(read_outcomes(reads, stream), i)
    } else {
        reads.len() as int
    }
}

/// The model of the outcome of rebuilding a record.
pub open spec fn rebuilt_view(outcome: Result<RecordInstance, ReadError>) -> Result<
    RecordInstanceView,
    ReadErrorView,
> {
    match outcome {
        Ok(record) => Ok(record@),
        Err(error) => Err(error@),
    }
}

/// Performs one read on a stream.
pub fn read_field(read: &ReadOp, stream: &mut InputDeserializer) -> (outcome: Result<
    FieldValue,
    ReadError,
>)
    ensures
        match outcome {
            Ok(field) => read_of(read@, value_at(old(stream)@, 0)) == Ok::<
                FieldValueView,
                ReadErrorView,
            >(field@) && final(stream)@ == old(stream)@.skip(1),
            Err(error) => read_of(read@, value_at(old(stream)@, 0)) == Err::<
                FieldValueView,
                ReadErrorView,
            >(error@) && final(stream)@ == old(stream)@,
        },
{
    let next = match read.kind {
        NumericKind::Int32 => match stream.next_int32() {
            Ok(value) => Ok(Scalar::Int32(value)),
            Err(fault) => Err(fault),
        },
        NumericKind::Float64 => match stream.next_float64() {
            Ok(bits) => Ok(Scalar::Float64(bits)),
            Err(fault) => Err(fault),
        },
    };
    match next {
        Ok(value) => Ok(FieldValue { name: read.field_name.clone(), value }),
        Err(ReadFault::Exhausted) => Err(ReadError::Exhausted(read.field_name.clone())),
        Err(ReadFault::KindMismatch) => Err(ReadError::KindMismatch(read.field_name.clone())),
    }
}

/// Rebuilds an instance of a compiled record from a stream: one read per
/// field, in declaration order. A failure ends it at once, with the values
/// of the fields before it consumed.
pub fn from_deserializer(artifacts: &GeneratedArtifacts, stream: &mut InputDeserializer) -> (outcome:
    Result<RecordInstance, ReadError>)
    ensures
        rebuilt_view(outcome) == reconstructed(artifacts@, old(stream)@),
        final(stream)@ == old(stream)@.skip(
            consumed(artifacts@.reconstruction_body, old(stream)@),
        ),
{
    let ghost reads = artifacts@.reconstruction_body;
    let ghost source = stream@;
    let ghost outcomes = read_outcomes(reads, source);
    let mut fields: Vec<FieldValue> = Vec::new();
    let mut i: usize = 0;
    assert(stream@ =~= source.skip(0));
    while i < artifacts.reconstruction_body.len()
        invariant
            i <= artifacts.reconstruction_body.len(),
            fields.len() == i,
            reads == artifacts@.reconstruction_body,
            outcomes == read_outcomes(reads, source),
            source == old(stream)@,
            i <= source.len(),
            stream@ == source.skip(i as int),
            forall|j: int|
                0 <= j < i ==> (#[trigger] outcomes[j]) == Ok::<FieldValueView, ReadErrorView>(
                    fields@[j]@,
                ),
        decreases artifacts.reconstruction_body.len() - i,
    {
        let read = &artifacts.reconstruction_body[i];
        assert(reads[i as int] == read@);
        assert(value_at(stream@, 0) == value_at(source, i as int));
        match read_field(read, stream) {
            Ok(field) => {
                fields.push(field);
                assert(stream@ =~= source.skip(i as int + 1));
            },
            Err(error) => {
                proof {
                    assert(outcomes[i as int] == Err::<FieldValueView, ReadErrorView>(error@));
                    assert(is_first_failure(outcomes, i as int));
                    lemma_gather_failure(outcomes, i as int);
                    let first = choose|k: int| is_first_failure(outcomes, k);
                    lemma_first_failure_unique(outcomes, i as int, first);
                }
                return Err(error);
            },
        }
        i += 1;
    }
    proof {
        lemma_gather_success(outcomes, view_all(fields@));
        assert forall|k: int| !is_first_failure(outcomes, k) by {
            if 0 <= k < outcomes.len() {
                assert(outcomes[k] is Ok);
            }
        }
    }
    Ok(RecordInstance { name: artifacts.record_name.clone(), fields })
}

} // verus!
