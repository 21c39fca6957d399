//! Analysis of native function and method declarations for binding
//! generation. For each declaration the analysis decides what kind of
//! function it is, which names it gets in the bridge and on the managed
//! side, how its arguments and its return value cross the boundary, and
//! whether a shim has to be generated for it.
//!
//! [`fn_analyzer::FnAnalyzer`] runs the analysis. [`model`] says as
//! mathematics what it computes, and [`laws`] holds what is proved of every
//! analysis and every run. The three registries of names are
//! [`bridge_name_tracker`], [`overload_tracker`] and [`rust_name_tracker`].

pub mod annotations;
pub mod api;
pub mod bridge_name_tracker;
pub mod config;
pub mod decisions;
pub mod details;
pub mod errors;
pub mod fn_analyzer;
pub mod gen_files;
pub mod idents;
pub mod laws;
pub mod model;
pub mod names;
pub mod overload_tracker;
pub mod rust_name_tracker;
pub mod text;
pub mod type_converter;
pub mod types;
