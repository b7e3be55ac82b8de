//! Per-record scripting over variant-call records: header type resolution,
//! genotype codes, typed field access for guest scripts, and the pipeline
//! that stages set-expressions, runs filters with early exit, renders
//! templates and routes each outcome to its sink.
//!
//! The guest runtime itself lives outside the library: the pipeline says
//! which script to run next ([`vcfexpress::Action`]) and takes its result
//! back ([`vcfexpress::Event`]).
pub mod commands;
pub mod error;
pub mod genotypes;
pub mod header;
pub mod lookup;
pub mod record;
pub mod sink;
pub mod text;
pub mod value;
pub mod variant;
pub mod vcfexpress;
