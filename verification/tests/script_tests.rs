use itol_engine::script::{
    dispatch_script, validate_file_path, get_relative_file_path, compiled_js_path, should_rebuild,
    plan_build, npm_build_step, tsc_build_step, wrap_build_error, classify_direct_run,
    ts_direct_step, ts_pipeline_step, classify_compiled_run, classify_browser_test_run,
    check_browser_test_deps, require_project_path, build_log_text, BuildCache, BuildMethod,
    NpmBuildNext, ProcessOutcome, RawRunOutcome, ScriptKind, ScriptError, TsPipelineEvent,
    TsPipelineState,
};

fn outcome(success: bool, stdout: &str, stderr: &str) -> ProcessOutcome {
    ProcessOutcome { success, stdout: stdout.to_string(), stderr: stderr.to_string() }
}

#[test]
fn dispatch_routes_by_markers_then_extension() {
    assert_eq!(dispatch_script("lib/add.js").unwrap(), ScriptKind::JavaScript);
    assert_eq!(dispatch_script("lib/add.ts").unwrap(), ScriptKind::TypeScript);
    assert_eq!(dispatch_script("lib/add.spec.ts").unwrap(), ScriptKind::BrowserTest);
    assert_eq!(dispatch_script("lib/add.test.js").unwrap(), ScriptKind::BrowserTest);
    assert_eq!(dispatch_script("x.spec.anything").unwrap(), ScriptKind::BrowserTest);
    let err = dispatch_script("notes.md").unwrap_err();
    assert!(matches!(&err, ScriptError::UnsupportedFileType(_)));
    assert_eq!(err.message(), "Unsupported file type");
}

#[test]
fn validate_checks_existence_and_extension() {
    assert!(validate_file_path("a.js", true).is_ok());
    assert!(validate_file_path("a.ts", true).is_ok());
    let missing = validate_file_path("a.ts", false).unwrap_err();
    assert_eq!(missing.message(), "File does not exist: a.ts");
    let bad = validate_file_path("a.py", true).unwrap_err();
    assert_eq!(bad.message(), "Unsupported file extension: py");
    let none = validate_file_path("Makefile", true).unwrap_err();
    assert_eq!(none.message(), "File has no extension");
}

#[test]
fn relative_path_strips_project_and_src() {
    assert_eq!(get_relative_file_path("/proj/src/foo.ts", "/proj").unwrap(), "foo.ts");
    assert_eq!(
        get_relative_file_path("C:\\proj\\src\\sub\\x.ts", "C:\\proj").unwrap(),
        "sub/x.ts"
    );
    assert_eq!(get_relative_file_path("/proj/other/foo.ts", "/proj").unwrap(), "other/foo.ts");
    assert_eq!(
        get_relative_file_path("/elsewhere/foo.ts", "/proj").unwrap_err(),
        "Failed to strip prefix: prefix not found"
    );
    assert_eq!(get_relative_file_path("/proj", "/proj").unwrap_err(), "Empty relative path");
    // A prefix must end on a component boundary.
    assert_eq!(
        get_relative_file_path("/projx/foo.ts", "/proj").unwrap_err(),
        "Failed to strip prefix: prefix not found"
    );
}

#[test]
fn compiled_output_lives_under_dist() {
    assert_eq!(compiled_js_path("/proj/src/a.ts", "/proj").unwrap(), "/proj/dist/a.js");
    assert_eq!(compiled_js_path("/proj/src/sub/b.ts", "/proj").unwrap(), "/proj/dist/sub/b.js");
    assert_eq!(compiled_js_path("/proj/src/c.js", "/proj").unwrap(), "/proj/dist/c.js");
}

#[test]
fn rebuild_check_is_idempotent() {
    let mut cache = BuildCache::new();
    // First check: no record yet, so a rebuild is due and gets recorded.
    assert!(should_rebuild(&mut cache, "/proj", Some(50), Some(60), 100));
    // Second consecutive check with unchanged manifests: no rebuild needed.
    assert!(!should_rebuild(&mut cache, "/proj", Some(50), Some(60), 101));
    assert!(!should_rebuild(&mut cache, "/proj", Some(50), Some(60), 102));
    // A manifest edit after the recorded build time makes a rebuild due again.
    assert!(should_rebuild(&mut cache, "/proj", Some(150), Some(60), 200));
    assert!(!should_rebuild(&mut cache, "/proj", Some(150), Some(60), 201));
}

#[test]
fn rebuild_without_manifests_is_always_due() {
    let mut cache = BuildCache::new();
    assert!(should_rebuild(&mut cache, "/proj", None, None, 100));
    assert!(should_rebuild(&mut cache, "/proj", None, None, 101));
}

#[test]
fn build_planning_and_fallbacks() {
    assert_eq!(plan_build(false, true), None);
    assert_eq!(plan_build(true, true), Some(BuildMethod::Npm));
    assert_eq!(plan_build(true, false), Some(BuildMethod::Tsc));

    assert!(matches!(npm_build_step(Ok(outcome(true, "", ""))), NpmBuildNext::Done));
    assert!(matches!(npm_build_step(Ok(outcome(false, "", "boom"))), NpmBuildNext::FallBackToTsc));
    match npm_build_step(Err("no npm".to_string())) {
        NpmBuildNext::Failed(m) => assert_eq!(m, "Failed to execute build command: no npm"),
        _ => panic!("spawn failure must be terminal"),
    }

    assert!(tsc_build_step(Ok(outcome(true, "", ""))).is_ok());
    assert_eq!(
        tsc_build_step(Ok(outcome(false, "", "type error"))).unwrap_err(),
        "TypeScript compilation failed:\ntype error"
    );
    assert_eq!(
        tsc_build_step(Err("no tsc".to_string())).unwrap_err(),
        "Failed to execute tsc: no tsc"
    );
    assert_eq!(
        wrap_build_error("no tsc").message(),
        "TypeScript build failed: no tsc"
    );
}

#[test]
fn direct_run_returns_stdout_on_success() {
    let ok = classify_direct_run(Ok(RawRunOutcome {
        success: true,
        stdout: Ok("3".to_string()),
        stderr: Ok(String::new()),
    }));
    assert_eq!(ok.unwrap(), "3");

    let spawn = classify_direct_run(Err("not found".to_string())).unwrap_err();
    assert_eq!(spawn.message(), "Failed to execute process: not found");

    let failed = classify_direct_run(Ok(RawRunOutcome {
        success: false,
        stdout: Ok(String::new()),
        stderr: Ok("stack trace".to_string()),
    }))
    .unwrap_err();
    assert_eq!(failed.message(), "stack trace");

    let undecodable = classify_direct_run(Ok(RawRunOutcome {
        success: true,
        stdout: Err("invalid utf-8".to_string()),
        stderr: Ok(String::new()),
    }))
    .unwrap_err();
    assert_eq!(undecodable.message(), "Failed to parse output: invalid utf-8");
}

#[test]
fn ts_direct_attempt_falls_back_on_any_failure() {
    assert_eq!(
        ts_direct_step(Ok(outcome(true, "out", "")), Some(Ok("{\"x\":1}".to_string()))),
        Some("{\"x\":1}".to_string())
    );
    assert_eq!(ts_direct_step(Ok(outcome(true, "out", "")), None), Some("out".to_string()));
    assert_eq!(ts_direct_step(Ok(outcome(false, "", "err")), None), None);
    assert_eq!(ts_direct_step(Err("missing".to_string()), None), None);
    assert_eq!(ts_direct_step(Ok(outcome(true, "", "")), Some(Err("io".to_string()))), None);
}

#[test]
fn compiled_run_demands_clean_streams_and_artifact() {
    let ok = classify_compiled_run(
        outcome(true, "log line", ""),
        "/r/run1/n_save.json",
        Some(Ok("{\"done\":true}".to_string())),
    );
    assert_eq!(ok.unwrap(), "{\"done\":true}");

    let noisy = classify_compiled_run(outcome(true, "", "warning"), "/p", Some(Ok("c".to_string())))
        .unwrap_err();
    assert_eq!(noisy.message(), "Node script error: warning");

    let marked = classify_compiled_run(outcome(true, "SyntaxError: bad", ""), "/p", None)
        .unwrap_err();
    assert_eq!(marked.message(), "Node script stdout error: SyntaxError: bad");

    let marked2 = classify_compiled_run(outcome(true, "Failed to load", ""), "/p", None)
        .unwrap_err();
    assert!(matches!(&marked2, ScriptError::NonZeroExit(_)));

    let missing = classify_compiled_run(outcome(true, "", ""), "/p/save.json", None).unwrap_err();
    assert_eq!(missing.message(), "Result file not created: /p/save.json");

    let nonzero = classify_compiled_run(outcome(false, "", ""), "/p", None).unwrap_err();
    assert_eq!(nonzero.message(), "Node script failed with non-zero exit code");
}

#[test]
fn browser_test_run_prefers_artifact_over_stdout() {
    let with_artifact = classify_browser_test_run(
        outcome(true, "report", ""),
        Some(Ok("{\"passed\":1}".to_string())),
    );
    assert_eq!(with_artifact.unwrap(), "{\"passed\":1}");

    let stdout_only = classify_browser_test_run(outcome(true, "report", ""), None);
    assert_eq!(stdout_only.unwrap(), "report");

    let failed = classify_browser_test_run(outcome(false, "", "timeout"), None).unwrap_err();
    assert_eq!(failed.message(), "Playwright execution failed: timeout");
}

#[test]
fn browser_test_needs_declared_dependency() {
    assert!(check_browser_test_deps(Some(Ok("\"@playwright/test\": \"1\"".to_string()))).is_ok());
    let absent = check_browser_test_deps(None).unwrap_err();
    assert_eq!(absent.message(), "package.json not found in project");
    let undeclared = check_browser_test_deps(Some(Ok("{\"deps\":{}}".to_string()))).unwrap_err();
    assert_eq!(undeclared.message(), "Playwright not found in package.json dependencies");
    let unreadable = check_browser_test_deps(Some(Err("denied".to_string()))).unwrap_err();
    assert_eq!(unreadable.message(), "Failed to read package.json: denied");
}

#[test]
fn project_path_is_checked_before_the_pipeline() {
    assert!(require_project_path("/proj", true).is_ok());
    let err = require_project_path("/proj", false).unwrap_err();
    assert_eq!(err.message(), "Project path does not exist: /proj");
}

#[test]
fn execution_log_uses_literal_markers() {
    assert_eq!(
        build_log_text("hello", "oops"),
        "=== STDOUT ===\nhello\n\n=== STDERR ===\noops"
    );
}

#[test]
fn ts_pipeline_ends_on_first_success() {
    let state = ts_pipeline_step(
        TsPipelineState::TryDirect,
        TsPipelineEvent::DirectFinished(Ok(outcome(true, "direct out", "")), None),
    );
    match state {
        TsPipelineState::Done(Ok(result)) => assert_eq!(result, "direct out"),
        _ => panic!("a clean direct run is terminal"),
    }
}

#[test]
fn ts_pipeline_falls_back_through_build_to_compiled_run() {
    // The direct attempt fails: fall back to building.
    let state = ts_pipeline_step(
        TsPipelineState::TryDirect,
        TsPipelineEvent::DirectFinished(Err("ts-node not available".to_string()), None),
    );
    assert!(matches!(state, TsPipelineState::Building));

    // The build succeeds: run the compiled output.
    let state = ts_pipeline_step(state, TsPipelineEvent::BuildFinished(Ok(())));
    assert!(matches!(state, TsPipelineState::RunCompiled));

    // The compiled run succeeds with its artifact in place.
    let state = ts_pipeline_step(
        state,
        TsPipelineEvent::CompiledFinished(
            outcome(true, "", ""),
            "/r/n_save.json".to_string(),
            Some(Ok("{\"done\":1}".to_string())),
        ),
    );
    match state {
        TsPipelineState::Done(Ok(result)) => assert_eq!(result, "{\"done\":1}"),
        _ => panic!("a clean compiled run is terminal"),
    }
}

#[test]
fn ts_pipeline_build_failure_is_terminal() {
    let state = ts_pipeline_step(
        TsPipelineState::Building,
        TsPipelineEvent::BuildFinished(Err("tsc exploded".to_string())),
    );
    match state {
        TsPipelineState::Done(Err(e)) => {
            assert!(matches!(&e, ScriptError::BuildFailed(_)));
            assert_eq!(e.message(), "TypeScript build failed: tsc exploded");
        }
        _ => panic!("a failed build is terminal"),
    }

    let state = ts_pipeline_step(
        TsPipelineState::RunCompiled,
        TsPipelineEvent::CompiledFileMissing("/p/dist/a.js".to_string()),
    );
    match state {
        TsPipelineState::Done(Err(e)) => {
            assert_eq!(e.message(), "Compiled JS file not found: /p/dist/a.js");
        }
        _ => panic!("a missing compiled file is terminal"),
    }
}

#[test]
fn ts_pipeline_ignores_events_for_other_stages() {
    let state = ts_pipeline_step(
        TsPipelineState::TryDirect,
        TsPipelineEvent::BuildFinished(Ok(())),
    );
    assert!(matches!(state, TsPipelineState::TryDirect));
}

#[test]
fn tool_names_follow_the_platform() {
    assert_eq!(itol_engine::script::node_command(), "node");
    assert_eq!(itol_engine::script::npm_command(true), "npm.cmd");
    assert_eq!(itol_engine::script::npm_command(false), "npm");
    assert_eq!(itol_engine::script::tsc_command(true), "tsc.cmd");
    assert_eq!(itol_engine::script::ts_node_command(false), "ts-node");
    assert_eq!(itol_engine::script::npx_command(true), "npx.cmd");
    assert_eq!(itol_engine::script::npm_build_args(), vec!["run", "build"]);
    let tsc = itol_engine::script::default_tsc_args();
    assert_eq!(tsc.first().map(String::as_str), Some("--outDir"));
    assert_eq!(tsc.last().map(String::as_str), Some("**/*.ts"));
    assert_eq!(tsc.len(), 13);
    let pw = itol_engine::script::browser_test_args("tests/a.spec.ts");
    assert_eq!(pw, vec!["playwright", "test", "tests/a.spec.ts", "--reporter=json"]);
}
