//! Compiling HLSL shader sources to SPIR-V on demand for an asset pipeline,
//! and tracking which sources were loaded so that edits can trigger a reload.
//!
//! The library holds the decisions: which profile tokens are accepted, the
//! compiler's command line, where the output goes, how a finished process is
//! turned into a load result, and the registry of tracked sources. Spawning
//! the compiler and talking to the engine's asset server are left to the
//! caller.

mod invoker;
mod loader;
mod paths;
mod profile;
mod registry;

pub use invoker::{compile_args, COMPILER};
pub use loader::{
    CompileDiagnostic, CompileRequest, CompileSettings, HLSLLoader, HLSLShader, LoadError, LoadOutcome,
    ProcessOutcome,
};
pub use paths::{output_path, resolve_source_path, COMPILED_EXTENSION, SOURCE_EXTENSION};
pub use profile::{validate, InvalidProfile, Profile, Stage};
pub use registry::{HLSLRegistry, LoadPlan};
