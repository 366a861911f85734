//! A schema compiler for records whose fields carry numeric domains.
//!
//! A record is declared as a struct with named fields, each of type `i32`
//! or `f64` and each with one attribute `#[domain(lower..upper)]` or
//! `#[domain(lower..=upper)]`. Compiling the declaration yields two chains
//! with one entry per field, in declaration order: the registrations that
//! describe the record's domains to a search, and the reads that rebuild an
//! instance of the record from a stream of scalars.
//!
//! - [`decl`]: a declaration as it was written.
//! - [`extract`], [`validate`], [`dispatch`], [`emit`]: the four steps of a
//!   compilation, each on the whole batch of fields.
//! - [`syntax`]: reading the payload of a domain attribute, which `syn`
//!   parses.
//! - [`driver`]: the state machine that runs the steps, and [`driver::compile`].
//! - [`input_data`]: registering the domains with a builder and rebuilding a
//!   record from a stream.
//! - [`laws`]: what holds of every compilation and every reconstruction.

pub mod decl;
pub mod dispatch;
pub mod driver;
pub mod emit;
pub mod error;
pub mod extract;
pub mod gather;
pub mod input_data;
pub mod laws;
pub mod scalar;
pub mod syntax;
pub mod validate;
