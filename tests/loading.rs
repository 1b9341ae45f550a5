use hlsl_assets::{
    compile_args, validate, CompileDiagnostic, CompileSettings, HLSLLoader, HLSLRegistry,
    HLSLShader, LoadError, ProcessOutcome, COMPILER,
};

fn settings(profile: &str) -> CompileSettings {
    CompileSettings { profile: profile.to_string() }
}

#[test]
fn pixel_shader_command_line() {
    let p = validate("ps_6_0").unwrap();
    let args = compile_args("shaders/basic.hlsl", &p);
    assert_eq!(
        args,
        vec![
            "shaders/basic.hlsl",
            "-T",
            "ps_6_0",
            "-spirv",
            "-fvk-use-gl-layout",
            "-Fo",
            "shaders/basic.spv",
            "-fspv-entrypoint-name=fragment",
        ]
    );
}

#[test]
fn vertex_and_compute_command_lines() {
    let args = compile_args("v.hlsl", &validate("vs_6_2").unwrap());
    assert_eq!(args.last().unwrap(), "-fspv-entrypoint-name=vertex");
    assert_eq!(args.len(), 8);
    let args = compile_args("c.hlsl", &validate("cs_6_5").unwrap());
    assert_eq!(args, vec!["c.hlsl", "-T", "cs_6_5", "-spirv", "-fvk-use-gl-layout", "-Fo", "c.spv"]);
}

#[test]
fn prepare_builds_the_run_under_the_asset_root() {
    let loader = HLSLLoader::new();
    let req = loader.prepare("shaders/basic.hlsl", &settings("ps_6_0")).unwrap();
    assert_eq!(req.program, COMPILER);
    assert_eq!(req.program, "dxc");
    assert_eq!(req.source_path, "assets/shaders/basic.hlsl");
    assert_eq!(req.output_path, "assets/shaders/basic.spv");
    assert_eq!(req.args[0], "assets/shaders/basic.hlsl");
    assert_eq!(req.args[2], "ps_6_0");
    assert_eq!(req.args[6], "assets/shaders/basic.spv");
    assert_eq!(req.args[7], "-fspv-entrypoint-name=fragment");
}

#[test]
fn prepare_rejects_an_unknown_profile() {
    let loader = HLSLLoader::new();
    match loader.prepare("a.hlsl", &settings("ps_7_0")) {
        Err(LoadError::InvalidProfile(e)) => assert_eq!(e.token, "ps_7_0"),
        other => panic!("unexpected {other:?}"),
    }
    assert!(matches!(
        loader.prepare("a.hlsl", &CompileSettings::default()),
        Err(LoadError::InvalidProfile(_))
    ));
}

#[test]
fn compiler_that_cannot_start_fails_the_load() {
    let loader = HLSLLoader::new();
    let req = loader.prepare("a.hlsl", &settings("ps_6_0")).unwrap();
    let r = loader.finish(&req, ProcessOutcome::NotStarted { reason: "not found".to_string() });
    assert_eq!(r, Err(LoadError::Spawn("not found".to_string())));
}

#[test]
fn failed_compile_still_gives_the_shader() {
    let loader = HLSLLoader::new();
    let req = loader.prepare("a.hlsl", &settings("vs_6_0")).unwrap();
    let stderr = b"error: bad".to_vec();
    let out = loader
        .finish(&req, ProcessOutcome::Exited { success: false, stderr: stderr.clone() })
        .unwrap();
    assert_eq!(out.shader, HLSLShader("assets/a.hlsl".to_string()));
    assert_eq!(out.diagnostic, Some(CompileDiagnostic { success: false, stderr }));
}

#[test]
fn failed_compile_with_silent_stderr_is_reported() {
    let loader = HLSLLoader::new();
    let req = loader.prepare("a.hlsl", &settings("vs_6_0")).unwrap();
    let out = loader.finish(&req, ProcessOutcome::Exited { success: false, stderr: vec![] }).unwrap();
    assert_eq!(out.diagnostic, Some(CompileDiagnostic { success: false, stderr: vec![] }));
}

#[test]
fn warnings_are_reported_on_success() {
    let loader = HLSLLoader { fail_on_error: true };
    let req = loader.prepare("a.hlsl", &settings("cs_6_0")).unwrap();
    let out = loader
        .finish(&req, ProcessOutcome::Exited { success: true, stderr: b"warning".to_vec() })
        .unwrap();
    assert_eq!(out.diagnostic, Some(CompileDiagnostic { success: true, stderr: b"warning".to_vec() }));
}

#[test]
fn clean_compile_has_no_diagnostic() {
    let loader = HLSLLoader::new();
    let req = loader.prepare("a.hlsl", &settings("cs_6_0")).unwrap();
    let out = loader.finish(&req, ProcessOutcome::Exited { success: true, stderr: vec![] }).unwrap();
    assert_eq!(out.shader, HLSLShader("assets/a.hlsl".to_string()));
    assert_eq!(out.diagnostic, None);
}

#[test]
fn fail_fast_loader_fails_on_error_status() {
    let loader = HLSLLoader { fail_on_error: true };
    let req = loader.prepare("a.hlsl", &settings("ps_6_0")).unwrap();
    let r = loader.finish(&req, ProcessOutcome::Exited { success: false, stderr: b"e".to_vec() });
    assert_eq!(
        r,
        Err(LoadError::Compile(CompileDiagnostic { success: false, stderr: b"e".to_vec() }))
    );
}

#[test]
fn loader_takes_hlsl_files() {
    assert_eq!(HLSLLoader::new().extensions(), vec!["hlsl"]);
}

#[test]
fn two_loads_with_different_profiles() {
    let mut reg: HLSLRegistry<u32> = HLSLRegistry::new(true);
    let first = reg.plan_load("shaders/a.hlsl", "ps_6_0");
    reg.record(&first.source_path, 1);
    let second = reg.plan_load("shaders/a.hlsl", "vs_6_0");
    reg.record(&second.source_path, 2);
    assert_eq!(first.settings, Some(settings("ps_6_0")));
    assert_eq!(second.settings, Some(settings("vs_6_0")));
    assert_eq!(first.compiled_path, "shaders/a.spv");
    assert_eq!(second.compiled_path, "shaders/a.spv");
    assert_eq!(reg.len(), 1);
    assert_eq!(reg.get("shaders/a.hlsl"), Some(&2));
}

#[test]
fn registry_keeps_one_entry_per_path() {
    let mut reg: HLSLRegistry<&str> = HLSLRegistry::new(true);
    assert_eq!(reg.len(), 0);
    assert_eq!(reg.get("a.hlsl"), None);
    reg.record("a.hlsl", "first");
    reg.record("b.hlsl", "other");
    reg.record("a.hlsl", "second");
    assert_eq!(reg.len(), 2);
    assert_eq!(reg.get("a.hlsl"), Some(&"second"));
    assert_eq!(reg.get("b.hlsl"), Some(&"other"));
    assert_eq!(reg.get("c.hlsl"), None);
}

#[test]
fn without_hot_reload_nothing_is_tracked() {
    let reg: HLSLRegistry<u8> = HLSLRegistry::new(false);
    assert!(!reg.hot_reload());
    let plan = reg.plan_load("shaders/a.hlsl", "ps_6_0");
    assert_eq!(plan.settings, None);
    assert_eq!(plan.source_path, "shaders/a.hlsl");
    assert_eq!(plan.compiled_path, "shaders/a.spv");
}
