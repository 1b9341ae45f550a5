use vstd::prelude::*;

use crate::invoker::{compile_args, compile_args_of, texts, COMPILER};
use crate::paths::{output_path, output_path_of, resolve_source_path, resolved_path_of};
use crate::profile::{profile_token, supported, validate, InvalidProfile, Stage};

verus! {

/// What one load request asks for: the profile token to compile with.
#[derive(Clone, Debug, PartialEq, Eq)]
pub struct CompileSettings {
    pub profile: String,
}

impl Default for CompileSettings {
    fn default() -> (r: CompileSettings)
        ensures
            r.profile@ == Seq::<char>::empty(),
    {
        CompileSettings { profile: String::new() }
    }
}

/// The result of a load: the source file that was compiled. The compiled
/// bytecode is not part of it.
#[derive(Clone, Debug, PartialEq, Eq)]
pub struct HLSLShader(pub String);

/// A compiler run to perform: the program, its arguments, the source it reads
/// and the output it writes.
#[derive(Clone, Debug, PartialEq, Eq)]
pub struct CompileRequest {
    pub program: String,
    pub args: Vec<String>,
    pub source_path: String,
    pub output_path: String,
}

/// What came of starting the compiler.
#[derive(Clone, Debug, PartialEq, Eq)]
pub enum ProcessOutcome {
    /// The process ran and exited.
    Exited { success: bool, stderr: Vec<u8> },
    /// The process could not be started at all.
    NotStarted { reason: String },
}

/// A compiler run that exited with a failure status or wrote to its error
/// stream.
#[derive(Clone, Debug, PartialEq, Eq)]
pub struct CompileDiagnostic {
    pub success: bool,
    pub stderr: Vec<u8>,
}

/// Why a load failed.
#[derive(Clone, Debug, PartialEq, Eq)]
pub enum LoadError {
    /// The profile token is not one of the accepted set; nothing was started.
    InvalidProfile(InvalidProfile),
    /// The compiler could not be started.
    Spawn(String),
    /// The compiler exited with a failure status, and the loader was set to
    /// fail on that.
    Compile(CompileDiagnostic),
}

/// A finished load: the shader record, and the diagnostic to report if the
/// compiler complained.
#[derive(Clone, Debug, PartialEq, Eq)]
pub struct LoadOutcome {
    pub shader: HLSLShader,
    pub diagnostic: Option<CompileDiagnostic>,
}

/// Turns a load request for an HLSL source into a compiler run, and the run's
/// outcome into a load result.
#[derive(Clone, Copy, Debug, PartialEq, Eq, Structural)]
pub struct HLSLLoader {
    /// Fail the load when the compiler exits with a failure status, instead of
    /// reporting it and leaving the failure to the load of the output.
    pub fail_on_error: bool,
}

/// Whether a compiler run is worth reporting.
pub open spec fn complains(success: bool, stderr: Seq<u8>) -> bool {
    !success || stderr.len() > 0
}

impl HLSLLoader {
    /// A loader that reports compiler failures and goes on.
    pub fn new() -> (r: HLSLLoader)
        ensures
            !r.fail_on_error,
    {
        HLSLLoader { fail_on_error: false }
    }

    /// The compiler run for the asset at `asset_path`: the source is resolved
    /// under the asset root, and the profile is checked before anything is
    /// started.
    pub fn prepare(&self, asset_path: &str, settings: &CompileSettings) -> (r: Result<
        CompileRequest,
        LoadError,
    >)
        ensures
            match r {
                Ok(req) => {
                    &&& req.program@ == COMPILER@
                    &&& req.source_path@ == resolved_path_of(asset_path@)
                    &&& req.output_path@ == output_path_of(req.source_path@)
                    &&& exists|st: Stage, m: int|
                        {
                            &&& supported(st, m)
                            &&& settings.profile@ == #[trigger] profile_token(st, m)
                            &&& texts(req.args@) == compile_args_of(
                                req.source_path@,
                                settings.profile@,
                                st,
                            )
                        }
                },
                Err(e) => {
                    &&& forall|st: Stage, m: int|
                        supported(st, m) ==> settings.profile@ != #[trigger] profile_token(st, m)
                    &&& e matches LoadError::InvalidProfile(ip)
                    &&& ip.token@ == settings.profile@
                },
            },
    {
        match validate(settings.profile.as_str()) {
            Err(e) => Err(LoadError::InvalidProfile(e)),
            Ok(profile) => {
                let source_path = resolve_source_path(asset_path);
                let args = compile_args(source_path.as_str(), &profile);
                let output_path = output_path(source_path.as_str());
                proof {
                    let st = profile.stage;
                    let m = profile.minor as int;
                    assert(settings.profile@ == profile_token(st, m));
                }
                Ok(
                    CompileRequest {
                        program: String::from_str(COMPILER),
                        args,
                        source_path,
                        output_path,
                    },
                )
            },
        }
    }

    /// The load result once the compiler run of `request` has ended with
    /// `outcome`. A compiler that could not be started fails the load; one that
    /// ran still gives the shader record, with a diagnostic where it failed or
    /// wrote to its error stream, unless the loader fails on a failure status.
    pub fn finish(&self, request: &CompileRequest, outcome: ProcessOutcome) -> (r: Result<
        LoadOutcome,
        LoadError,
    >)
        ensures
            match outcome {
                ProcessOutcome::NotStarted { reason } => r matches Err(LoadError::Spawn(m))
                    && m@ == reason@,
                ProcessOutcome::Exited { success, stderr } => {
                    if !success && self.fail_on_error {
                        r matches Err(LoadError::Compile(d)) && !d.success && d.stderr@
                            == stderr@
                    } else {
                        r matches Ok(o) && o.shader.0@ == request.source_path@ && (match o.diagnostic {
                            Some(d) => complains(success, stderr@) && d.success == success
                                && d.stderr@ == stderr@,
                            None => !complains(success, stderr@),
                        })
                    }
                },
            },
    {
        match outcome {
            ProcessOutcome::NotStarted { reason } => Err(LoadError::Spawn(reason)),
            ProcessOutcome::Exited { success, stderr } => {
                let complained = !success || stderr.len() > 0;
                let diagnostic = CompileDiagnostic { success, stderr };
                if !success && self.fail_on_error {
                    Err(LoadError::Compile(diagnostic))
                } else {
                    let shader = HLSLShader(request.source_path.clone());
                    if complained {
                        Ok(LoadOutcome { shader, diagnostic: Some(diagnostic) })
                    } else {
                        Ok(LoadOutcome { shader, diagnostic: None })
                    }
                }
            },
        }
    }

    /// The file extensions this loader takes.
    pub fn extensions(&self) -> (r: Vec<&'static str>)
        ensures
            r@.len() == 1,
            r@[0]@ == crate::paths::SOURCE_EXTENSION@,
    {
        let mut v: Vec<&'static str> = Vec::new();
        v.push(crate::paths::SOURCE_EXTENSION);
        v
    }
}

} // verus!
