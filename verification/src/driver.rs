//! The compiler driver: a state machine that takes a declaration through
//! extraction, validation and dispatch to emission, or to the first
//! failure on the way.

use crate::decl::{view_all, RecordDecl, RecordDeclView};
use crate::dispatch::{dispatch, dispatch_fields, RecordSchema, RecordSchemaView};
use crate::emit::{emit, emitted, GeneratedArtifacts, GeneratedArtifactsView};
use crate::error::{CompileError, CompileErrorView};
use crate::extract::{extract, extract_fields, ExtractedField, ExtractedFieldView};
use crate::validate::{validate, validate_fields, ValidatedField, ValidatedFieldView};
use vstd::prelude::*;

verus! {

/// The state of one compilation. Each step works on the whole batch of
/// fields; `Emitted` and `Failed` are final.
#[derive(Clone, Debug, PartialEq, Eq)]
pub enum DriverState {
    /// The declaration has been received.
    Start { decl: RecordDecl },
    /// The declaration is a record and its fields have names.
    Extracted { record_name: String, extracted: Vec<ExtractedField> },
    /// Every field has exactly one domain, and it is a range.
    Validated { record_name: String, validated: Vec<ValidatedField> },
    /// Every field has a kind, which is that of its domain.
    Dispatched { schema: RecordSchema },
    /// Both chains have been emitted.
    Emitted { artifacts: GeneratedArtifacts },
    /// A step has failed. Nothing is emitted.
    Failed { error: CompileError },
}

/// The mathematical model of a [`DriverState`].
pub enum DriverStateView {
    Start { decl: RecordDeclView },
    Extracted { record_name: Seq<char>, extracted: Seq<ExtractedFieldView> },
    Validated { record_name: Seq<char>, validated: Seq<ValidatedFieldView> },
    Dispatched { schema: RecordSchemaView },
    Emitted { artifacts: GeneratedArtifactsView },
    Failed { error: CompileErrorView },
}

impl View for DriverState {
    type V = DriverStateView;

    open spec fn view(&self) -> DriverStateView {
        match *self {
            DriverState::Start { decl } => DriverStateView::Start { decl: decl@ },
            DriverState::Extracted { record_name, extracted } => DriverStateView::Extracted {
                record_name: record_name@,
                extracted: view_all(extracted@),
            },
            DriverState::Validated { record_name, validated } => DriverStateView::Validated {
                record_name: record_name@,
                validated: view_all(validated@),
            },
            DriverState::Dispatched { schema } => DriverStateView::Dispatched { schema: schema@ },
            DriverState::Emitted { artifacts } => DriverStateView::Emitted {
                artifacts: artifacts@,
            },
            DriverState::Failed { error } => DriverStateView::Failed { error: error@ },
        }
    }
}

impl DriverStateView {
    /// No step leaves a final state.
    pub open spec fn is_final(self) -> bool {
        self is Emitted || self is Failed
    }

    /// The number of steps that may still be taken.
    pub open spec fn steps_left(self) -> nat {
        match self {
            DriverStateView::Start { .. } => 4,
            DriverStateView::Extracted { .. } => 3,
            DriverStateView::Validated { .. } => 2,
            DriverStateView::Dispatched { .. } => 1,
            DriverStateView::Emitted { .. } => 0,
            DriverStateView::Failed { .. } => 0,
        }
    }

    /// The state after one step. A step that fails leads to `Failed` with
    /// the failure; a final state stays as it is.
    pub open spec fn next(self) -> DriverStateView {
        match self {
            DriverStateView::Start { decl } => match extract_fields(decl) {
                Ok(extracted) => DriverStateView::Extracted { record_name: decl.name, extracted },
                Err(error) => DriverStateView::Failed { error },
            },
            DriverStateView::Extracted { record_name, extracted } => match validate_fields(
                extracted,
            ) {
                Ok(validated) => DriverStateView::Validated { record_name, validated },
                Err(error) => DriverStateView::Failed { error },
            },
            DriverStateView::Validated { record_name, validated } => match dispatch_fields(
                validated,
            ) {
                Ok(fields) => DriverStateView::Dispatched {
                    schema: RecordSchemaView { name: record_name, fields },
                },
                Err(error) => DriverStateView::Failed { error },
            },
            DriverStateView::Dispatched { schema } => DriverStateView::Emitted {
                artifacts: emitted(schema),
            },
            DriverStateView::Emitted { artifacts } => self,
            DriverStateView::Failed { error } => self,
        }
    }

    /// The final state that the steps lead to.
    pub open spec fn run(self) -> DriverStateView
        decreases self.steps_left(),
    {
        if self.is_final() {
            self
        } else {
            self.next().run()
        }
    }
}

/// What a declaration compiles to: the two chains for its fields where it
/// is a record of which every field has a name, exactly one domain that is
/// a range between two numeric literals, and a supported type of the kind
/// of those literals. Else the failure of the first step that fails, and
/// within that step of the first field that fails it.
pub open spec fn compiled(decl: RecordDeclView) -> Result<
    GeneratedArtifactsView,
    CompileErrorView,
> {
    match extract_fields(decl) {
        Err(error) => Err(error),
        Ok(extracted) => match validate_fields(extracted) {
            Err(error) => Err(error),
            Ok(validated) => match dispatch_fields(validated) {
                Err(error) => Err(error),
                Ok(fields) => Ok(emitted(RecordSchemaView { name: decl.name, fields })),
            },
        },
    }
}

/// The final state that stands for an outcome.
pub open spec fn final_state(outcome: Result<GeneratedArtifactsView, CompileErrorView>) -> DriverStateView {
    match outcome {
        Ok(artifacts) => DriverStateView::Emitted { artifacts },
        Err(error) => DriverStateView::Failed { error },
    }
}

/// The model of the outcome of a compilation.
pub open spec fn outcome_view(outcome: Result<GeneratedArtifacts, CompileError>) -> Result<
    GeneratedArtifactsView,
    CompileErrorView,
> {
    match outcome {
        Ok(artifacts) => Ok(artifacts@),
        Err(error) => Err(error@),
    }
}

/// The machine started on a declaration ends in the state that stands for
/// what the declaration compiles to: `Emitted` with both chains, or
/// `Failed` with the failure.
pub proof fn lemma_run_is_compiled(decl: RecordDeclView)
    ensures
        (DriverStateView::Start { decl }).run() == final_state(compiled(decl)),
{
    reveal_with_fuel(DriverStateView::run, 5);
}

impl DriverState {
    /// Whether the compilation has ended.
    pub fn is_final(&self) -> (ended: bool)
        ensures
            ended == self@.is_final(),
    {
        match self {
            DriverState::Emitted { .. } => true,
            DriverState::Failed { .. } => true,
            _ => false,
        }
    }

    /// Takes one step.
    pub fn advance(self) -> (next: DriverState)
        ensures
            next@ == self@.next(),
    {
        match self {
            DriverState::Start { decl } => match extract(&decl) {
                Ok(extracted) => DriverState::Extracted { record_name: decl.name, extracted },
                Err(error) => DriverState::Failed { error },
            },
            DriverState::Extracted { record_name, extracted } => match validate(&extracted) {
                Ok(validated) => DriverState::Validated { record_name, validated },
                Err(error) => DriverState::Failed { error },
            },
            DriverState::Validated { record_name, validated } => match dispatch(&validated) {
                Ok(fields) => DriverState::Dispatched {
                    schema: RecordSchema { name: record_name, fields },
                },
                Err(error) => DriverState::Failed { error },
            },
            DriverState::Dispatched { schema } => DriverState::Emitted { artifacts: emit(&schema) },
            DriverState::Emitted { artifacts } => DriverState::Emitted { artifacts },
            DriverState::Failed { error } => DriverState::Failed { error },
        }
    }
}

/// Compiles a declaration: runs the machine from `Start` until it ends.
pub fn compile(decl: RecordDecl) -> (outcome: Result<GeneratedArtifacts, CompileError>)
    ensures
        outcome_view(outcome) == compiled(decl@),
{
    let ghost start = DriverStateView::Start { decl: decl@ };
    let mut state = DriverState::Start { decl };
    proof {
        lemma_run_is_compiled(decl@);
    }
    loop
        invariant
            state@.run() == start.run(),
            start.run() == final_state(compiled(decl@)),
        decreases state@.steps_left(),
    {
        match state {
            DriverState::Emitted { artifacts } => {
                return Ok(artifacts);
            },
            DriverState::Failed { error } => {
                return Err(error);
            },
            other => {
                state = other.advance();
            },
        }
    }
}

} // verus!
