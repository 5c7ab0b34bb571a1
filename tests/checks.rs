use nix_check_runner::{
    add_max_jobs, build_args, check_address, check_options, current_system_args, derivations_of,
    discover, log_args, millis_fit, read_build, read_text, render_report, show, show_args, start_run, synthesize,
    test_case, Action, BuildMode, CheckCase, CheckRun, CheckTarget, DiscoveryError, Json,
    Outcome, ResolveError, StartError, ToolError, ToolOutput,
};

fn s(t: &str) -> String {
    t.to_string()
}

fn ok_output(stdout: &str) -> Result<ToolOutput, String> {
    Ok(ToolOutput { success: true, stdout: stdout.as_bytes().to_vec(), stderr: vec![] })
}

fn failed_output(stdout: &str, stderr: &str) -> Result<ToolOutput, String> {
    Ok(ToolOutput {
        success: false,
        stdout: stdout.as_bytes().to_vec(),
        stderr: stderr.as_bytes().to_vec(),
    })
}

fn object(members: Vec<(&str, Json)>) -> Json {
    Json::Object(members.into_iter().map(|(k, v)| (s(k), v)).collect())
}

fn derivation(name: &str) -> Json {
    object(vec![("name", Json::Str(s(name))), ("type", Json::Str(s("derivation")))])
}

fn flake(platform: &str, entries: Json) -> Json {
    object(vec![("checks", object(vec![(platform, entries)]))])
}

const DRY_RUN_OUT: &str = r#"[{"drvPath":"/nix/store/abc-proj.drv","outputs":{"out":"/nix/store/abc-proj"}}]"#;

fn run_over(names: &[(&str, &str)]) -> CheckRun {
    let targets = names
        .iter()
        .map(|(k, n)| CheckTarget { key: s(k), name: s(n) })
        .collect();
    CheckRun::new(s("x86_64-linux"), targets, vec![])
}

#[test]
fn discovery_example_document() {
    let doc = flake("x86_64-linux", object(vec![("build", derivation("proj-1.0"))]));
    let targets = discover(doc, &s("x86_64-linux")).unwrap();
    assert_eq!(targets.len(), 1);
    assert_eq!(targets[0].key, "build");
    assert_eq!(targets[0].name, "proj-1.0");
}

#[test]
fn discovery_example_through_tool_output() {
    let shown = ok_output(
        r#"{"checks": {"x86_64-linux": {"build": {"name": "proj-1.0", "type": "derivation"}}}}"#,
    );
    let run = start_run(shown, ok_output("x86_64-linux"), vec![]).unwrap();
    match run.action() {
        Action::DryRun { args } => {
            assert_eq!(args, vec!["build", ".#checks.x86_64-linux.build", "--json", "--dry-run"]);
        }
        other => panic!("unexpected action {:?}", other),
    }
}

#[test]
fn discovery_keeps_member_order() {
    let doc = flake(
        "x86_64-linux",
        object(vec![("alpha", derivation("a-1")), ("beta", derivation("b-1"))]),
    );
    let targets = discover(doc, &s("x86_64-linux")).unwrap();
    let keys: Vec<&str> = targets.iter().map(|t| t.key.as_str()).collect();
    assert_eq!(keys, vec!["alpha", "beta"]);
    let run = CheckRun::new(s("x86_64-linux"), targets, vec![]);
    let names: Vec<&str> = run.check_targets().iter().map(|t| t.name.as_str()).collect();
    assert_eq!(names, vec!["a-1", "b-1"]);
}

#[test]
fn discovery_rejects_non_object_platform_entry() {
    let doc = flake("x86_64-linux", Json::Str(s("not a map")));
    match discover(doc, &s("x86_64-linux")) {
        Err(DiscoveryError::NotAMap { found: Json::Str(t) }) => assert_eq!(t, "not a map"),
        other => panic!("unexpected {:?}", other),
    }
}

#[test]
fn discovery_rejects_missing_platform() {
    let doc = flake("aarch64-darwin", object(vec![("build", derivation("proj-1.0"))]));
    assert!(matches!(
        discover(doc, &s("x86_64-linux")),
        Err(DiscoveryError::NotAMap { found: Json::Null })
    ));
}

#[test]
fn discovery_rejects_whole_batch_on_wrong_type() {
    let bad = object(vec![("name", Json::Str(s("pkg"))), ("type", Json::Str(s("package")))]);
    let doc = flake(
        "x86_64-linux",
        object(vec![("a", derivation("a-1")), ("b", bad), ("c", derivation("c-1"))]),
    );
    match discover(doc, &s("x86_64-linux")) {
        Err(DiscoveryError::NotADerivation { key, .. }) => assert_eq!(key, "b"),
        other => panic!("unexpected {:?}", other),
    }
}

#[test]
fn discovery_rejects_entry_without_name() {
    let bad = object(vec![("type", Json::Str(s("derivation")))]);
    let doc = flake("x86_64-linux", object(vec![("a", bad)]));
    assert!(matches!(
        discover(doc, &s("x86_64-linux")),
        Err(DiscoveryError::NotADerivation { .. })
    ));
}

#[test]
fn start_fails_on_unparsable_outputs() {
    let r = start_run(ok_output("{not json"), ok_output("x86_64-linux"), vec![]);
    assert!(matches!(r, Err(StartError::Outputs(ToolError::Output { .. }))));
}

#[test]
fn start_fails_when_platform_query_fails() {
    let shown = ok_output(r#"{"checks": {}}"#);
    let r = start_run(shown, failed_output("", "boom"), vec![]);
    match r {
        Err(StartError::Platform(ToolError::Exit { stderr, .. })) => assert_eq!(stderr, "boom"),
        other => panic!("unexpected {:?}", other.err()),
    }
}

#[test]
fn start_fails_when_platform_is_not_utf8() {
    let shown = ok_output(r#"{"checks": {}}"#);
    let system = Ok(ToolOutput { success: true, stdout: vec![0xff, 0xfe], stderr: vec![] });
    let r = start_run(shown, system, vec![]);
    assert!(matches!(r, Err(StartError::Platform(ToolError::Output { .. }))));
}

#[test]
fn tool_arguments() {
    assert_eq!(show_args(), vec!["flake", "show", "--json"]);
    assert_eq!(
        current_system_args(),
        vec!["eval", "--impure", "--raw", "--expr", "builtins.currentSystem"]
    );
    assert_eq!(log_args(&s("/nix/store/x.drv")), vec!["log", "/nix/store/x.drv"]);
    let options = vec![s("--keep-going"), s("-L")];
    assert_eq!(
        build_args(&s(".#checks.x.y"), BuildMode::DryRun, &options),
        vec!["build", ".#checks.x.y", "--json", "--dry-run", "--keep-going", "-L"]
    );
    assert_eq!(
        build_args(&s(".#checks.x.y"), BuildMode::Real, &options),
        vec!["build", ".#checks.x.y", "--json", "--keep-going", "-L"]
    );
}

#[test]
fn address_of_a_check() {
    assert_eq!(check_address(&s("x86_64-linux"), &s("fmt")), ".#checks.x86_64-linux.fmt");
}

#[test]
fn reserved_options_are_refused() {
    assert_eq!(check_options(&vec![s("-L"), s("--json")]), Err(1));
    assert_eq!(check_options(&vec![s("--dry-run")]), Err(0));
    assert_eq!(check_options(&vec![s("-L"), s("--keep-going")]), Ok(()));
    assert_eq!(check_options(&vec![]), Ok(()));
}

#[test]
fn max_jobs_are_appended() {
    let mut options = vec![s("-L")];
    add_max_jobs(&mut options, s("4"));
    assert_eq!(options, vec!["-L", "--max-jobs", "4"]);
}

#[test]
fn build_report_is_read() {
    let ds = read_build(&vec![s("build")], ok_output(DRY_RUN_OUT)).unwrap();
    assert_eq!(ds.len(), 1);
    assert_eq!(ds[0].drv_path, "/nix/store/abc-proj.drv");
    assert_eq!(ds[0].outputs, vec![(s("out"), s("/nix/store/abc-proj"))]);
}

#[test]
fn build_report_keeps_every_output() {
    let out = r#"[{"drvPath":"/a.drv","outputs":{"out":"/a","dev":"/a-dev"}},{"drvPath":"/b.drv","outputs":{}}]"#;
    let ds = read_build(&vec![s("build")], ok_output(out)).unwrap();
    assert_eq!(ds.len(), 2);
    assert_eq!(ds[0].drv_path, "/a.drv");
    assert_eq!(ds[0].outputs, vec![(s("dev"), s("/a-dev")), (s("out"), s("/a"))]);
    assert_eq!(ds[1].drv_path, "/b.drv");
    assert!(ds[1].outputs.is_empty());
}

#[test]
fn summed_times_must_fit() {
    let case = |millis: u64| CheckCase { name: s("c"), outcome: Outcome::Success, millis };
    assert!(millis_fit(&vec![]));
    assert!(millis_fit(&vec![case(5), case(7)]));
    assert!(millis_fit(&vec![case(i64::MAX as u64)]));
    assert!(!millis_fit(&vec![case(i64::MAX as u64), case(1)]));
    assert!(!millis_fit(&vec![case(u64::MAX)]));
}

#[test]
fn build_report_of_wrong_shape_is_refused() {
    let r = read_build(&vec![s("build")], ok_output(r#"[{"drvPath": 3, "outputs": {}}]"#));
    assert!(matches!(r, Err(ToolError::Output { .. })));
    let r = read_build(&vec![s("build")], ok_output(r#"[{"drvPath": "/a.drv"}]"#));
    assert!(matches!(r, Err(ToolError::Output { .. })));
    assert!(derivations_of(&Json::Null).is_none());
}

#[test]
fn failed_process_error_carries_lossy_output() {
    let r = read_text(&vec![s("log"), s("/x.drv")], failed_output("a\u{e9}", "gone"));
    let e = r.unwrap_err();
    assert_eq!(
        e.message(),
        "`nix log /x.drv` did not run successfully.\nStdout:a\u{e9}\nStderr:gone"
    );
    let bad = Ok(ToolOutput { success: false, stdout: vec![b'a', 0xff], stderr: vec![] });
    match read_text(&vec![s("log")], bad) {
        Err(ToolError::Exit { stdout, .. }) => assert_eq!(stdout, "a\u{fffd}"),
        other => panic!("unexpected {:?}", other),
    }
}

#[test]
fn spawn_error_message() {
    let r = read_text(&vec![s("eval")], Err(s("no such file")));
    assert_eq!(r.unwrap_err().message(), "`nix eval` could not be started: no such file");
}

#[test]
fn all_passing_checks_give_passed_cases_in_order() {
    let mut run = run_over(&[("a", "a-1"), ("b", "b-1"), ("c", "c-1")]);
    for millis in [10u64, 20, 30] {
        assert!(matches!(run.action(), Action::DryRun { .. }));
        run.dry_run_done(ok_output(DRY_RUN_OUT)).unwrap();
        assert!(matches!(run.action(), Action::Build { .. }));
        run.build_done(ok_output(DRY_RUN_OUT), millis);
    }
    assert!(matches!(run.action(), Action::Report));
    let cases = run.finish().unwrap();
    let suite = synthesize(&cases);
    assert_eq!(suite.name, "nix flake checks");
    assert_eq!(suite.testcases.len(), 3);
    let names: Vec<&str> = suite.testcases.iter().map(|t| t.name.as_str()).collect();
    assert_eq!(names, vec!["a-1", "b-1", "c-1"]);
    assert!(suite.testcases.iter().all(|t| t.is_success()));
    assert_eq!(suite.testcases[1].time.whole_milliseconds(), 20);
}

#[test]
fn failed_build_reports_fetched_log_verbatim() {
    let mut run = run_over(&[("a", "a-1")]);
    run.dry_run_done(ok_output(DRY_RUN_OUT)).unwrap();
    run.build_done(failed_output("", "error: builder failed"), 1500);
    match run.action() {
        Action::FetchLog { args } => assert_eq!(args, vec!["log", "/nix/store/abc-proj.drv"]),
        other => panic!("unexpected action {:?}", other),
    }
    run.log_done(ok_output("line one\nline two\n"));
    let cases = run.finish().unwrap();
    assert!(matches!(&cases[0].outcome, Outcome::Failure { log } if log == "line one\nline two\n"));
    let tc = test_case(&cases[0]);
    assert!(tc.is_failure());
    assert_eq!(tc.system_out.as_deref(), Some("line one\nline two\n"));
    assert_eq!(tc.time.whole_milliseconds(), 1500);
    match &tc.result {
        junit_report::TestResult::Failure { type_, message, .. } => {
            assert_eq!(type_, "nix check");
            assert_eq!(message, "build failed");
        }
        other => panic!("unexpected result {:?}", other),
    }
}

#[test]
fn failed_log_fetch_still_gives_text() {
    let mut run = run_over(&[("a", "a-1")]);
    run.dry_run_done(ok_output(DRY_RUN_OUT)).unwrap();
    run.build_done(failed_output("", ""), 5);
    run.log_done(failed_output("", "no log"));
    let cases = run.finish().unwrap();
    let tc = test_case(&cases[0]);
    let out = tc.system_out.unwrap();
    assert!(!out.is_empty());
    assert_eq!(
        out,
        "nix-log call failed: `nix log /nix/store/abc-proj.drv` did not run successfully.\nStdout:\nStderr:no log"
    );
}

#[test]
fn failed_dry_run_aborts_without_report() {
    let mut run = run_over(&[("a", "a-1"), ("b", "b-1")]);
    let r = run.dry_run_done(failed_output("", "cannot resolve"));
    assert!(matches!(r, Err(ResolveError::Tool(ToolError::Exit { .. }))));
    assert!(matches!(run.action(), Action::Abort));
    assert!(run.finish().is_none());
}

#[test]
fn dry_run_without_derivations_aborts() {
    let mut run = run_over(&[("a", "a-1")]);
    let r = run.dry_run_done(ok_output("[]"));
    match r {
        Err(ResolveError::NoDerivation { address }) => assert_eq!(address, ".#checks.x86_64-linux.a"),
        other => panic!("unexpected {:?}", other),
    }
    assert!(run.finish().is_none());
}

#[test]
fn empty_run_gives_minimal_report() {
    let run = run_over(&[]);
    assert!(matches!(run.action(), Action::Report));
    let cases: Vec<CheckCase> = run.finish().unwrap();
    let xml = String::from_utf8(render_report(&cases)).unwrap();
    assert!(xml.starts_with("<?xml version=\"1.0\" encoding=\"utf-8\"?>"));
    assert!(xml.contains("<testsuites>"));
    assert!(xml.contains("name=\"nix flake checks\""));
    assert!(xml.contains("tests=\"0\""));
    assert!(xml.contains("failures=\"0\""));
    assert!(!xml.contains("<testcase"));
    assert!(xml.trim_end().ends_with("</testsuites>"));
}

#[test]
fn report_holds_failure_payload() {
    let cases = vec![
        CheckCase { name: s("ok-1"), outcome: Outcome::Success, millis: 1000 },
        CheckCase { name: s("bad-1"), outcome: Outcome::Failure { log: s("it broke") }, millis: 2000 },
    ];
    let xml = String::from_utf8(render_report(&cases)).unwrap();
    assert!(xml.contains("tests=\"2\""));
    assert!(xml.contains("failures=\"1\""));
    assert!(xml.contains("<testcase name=\"ok-1\" time=\"1\"/>"));
    assert!(xml.contains("<failure type=\"nix check\" message=\"build failed\"/>"));
    assert!(xml.contains("<system-out><![CDATA[it broke]]></system-out>"));
}

#[test]
fn show_reads_the_listing() {
    match show(ok_output(r#"{"b": [true, null, 1.5], "a": "x"}"#)).unwrap() {
        Json::Object(members) => {
            assert_eq!(members.len(), 2);
            assert_eq!(members[0].0, "a");
            assert!(matches!(&members[0].1, Json::Str(t) if t == "x"));
            assert_eq!(members[1].0, "b");
            match &members[1].1 {
                Json::Array(items) => {
                    assert!(matches!(items[0], Json::Bool(true)));
                    assert!(matches!(items[1], Json::Null));
                    assert!(matches!(&items[2], Json::Number(n) if n == "1.5"));
                }
                other => panic!("unexpected {:?}", other),
            }
        }
        other => panic!("unexpected {:?}", other),
    }
    match show(failed_output("", "no flake")) {
        Err(ToolError::Exit { args, stderr, .. }) => {
            assert_eq!(args, vec!["flake", "show", "--json"]);
            assert_eq!(stderr, "no flake");
        }
        other => panic!("unexpected {:?}", other),
    }
}
