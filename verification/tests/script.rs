use cargo_post::context::{resolve, PackageInfo};
use cargo_post::script::{
    artifact_arguments, building_arguments, classify_command, exit_code, is_target_mismatch,
    plan_post_build_script, react, script_binary, script_build_arguments, Action,
    BuildScriptCall, CommandError, Event, Status,
};

const OK: Status = Status { success: true, code: Some(0) };

fn failed(code: i32) -> Status {
    Status { success: false, code: Some(code) }
}

const KILLED: Status = Status { success: false, code: None };

#[test]
fn building_commands_call_the_script_afterwards() {
    for name in ["b", "build", "xbuild"] {
        assert_eq!(classify_command(Some(name)), Ok(BuildScriptCall::AfterCommand));
    }
}

#[test]
fn commands_that_build_nothing_call_no_script() {
    for name in ["c", "check", "clean", "doc", "new", "init", "update", "search", "uninstall"] {
        assert_eq!(classify_command(Some(name)), Ok(BuildScriptCall::NoCall));
    }
    assert_eq!(classify_command(None), Ok(BuildScriptCall::NoCall));
}

#[test]
fn commands_that_run_what_they_built_call_the_script_in_between() {
    assert_eq!(classify_command(Some("run")), Ok(BuildScriptCall::InBetween));
    assert_eq!(classify_command(Some("test")), Ok(BuildScriptCall::InBetween));
}

#[test]
fn other_commands_are_refused() {
    for name in ["bench", "publish", "install"] {
        assert_eq!(classify_command(Some(name)), Err(CommandError::Unsupported));
    }
    for name in ["", "buildx", "Build", "--help", "fmt"] {
        assert_eq!(classify_command(Some(name)), Err(CommandError::Unknown));
    }
}

#[test]
fn only_another_target_than_the_host_is_a_mismatch() {
    assert!(!is_target_mismatch(None, "x86_64-unknown-linux-gnu"));
    assert!(!is_target_mismatch(Some("x86_64-unknown-linux-gnu"), "x86_64-unknown-linux-gnu"));
    assert!(is_target_mismatch(Some("x86_64-unknown-none"), "x86_64-unknown-linux-gnu"));
}

#[test]
fn the_script_is_built_for_the_host() {
    assert_eq!(
        script_build_arguments("/t/post_build_script_manifest/Cargo.toml", "host-triple", false),
        vec!["build", "--manifest-path", "/t/post_build_script_manifest/Cargo.toml"]
    );
    assert_eq!(
        script_build_arguments("/t/post_build_script_manifest/Cargo.toml", "host-triple", true),
        vec![
            "build",
            "--manifest-path",
            "/t/post_build_script_manifest/Cargo.toml",
            "--target",
            "host-triple"
        ]
    );
}

#[test]
fn the_built_script_is_in_the_debug_profile() {
    assert_eq!(
        script_binary("/t/post_build_script_manifest", "host-triple", false),
        "/t/post_build_script_manifest/target/debug/post-build-script"
    );
    assert_eq!(
        script_binary("/t/post_build_script_manifest", "host-triple", true),
        "/t/post_build_script_manifest/target/host-triple/debug/post-build-script"
    );
}

#[test]
fn a_failure_has_its_code_or_one() {
    assert_eq!(OK.failure_code(), None);
    assert_eq!(failed(101).failure_code(), Some(101));
    assert_eq!(failed(-1).failure_code(), Some(-1));
    assert_eq!(KILLED.failure_code(), Some(1));
}

#[test]
fn the_first_failure_gives_the_exit_code() {
    assert_eq!(exit_code(&vec![]), 0);
    assert_eq!(exit_code(&vec![OK, OK, OK]), 0);
    assert_eq!(exit_code(&vec![OK, failed(3), failed(4)]), 3);
    assert_eq!(exit_code(&vec![OK, KILLED, failed(4)]), 1);
    assert_eq!(exit_code(&vec![failed(101)]), 101);
}

#[test]
fn a_build_is_followed_by_the_search_for_the_script() {
    assert_eq!(react(BuildScriptCall::AfterCommand, Event::Built(OK)), Action::LocateScript);
    assert_eq!(react(BuildScriptCall::InBetween, Event::Built(OK)), Action::LocateScript);
    assert_eq!(react(BuildScriptCall::NoCall, Event::Built(OK)), Action::Exit(0));
    assert_eq!(react(BuildScriptCall::AfterCommand, Event::Built(failed(101))), Action::Exit(101));
    assert_eq!(react(BuildScriptCall::NoCall, Event::Built(KILLED)), Action::Exit(1));
}

#[test]
fn a_missing_script_is_no_error() {
    assert_eq!(
        react(BuildScriptCall::AfterCommand, Event::ScriptLocated(false)),
        Action::Exit(0)
    );
    assert_eq!(
        react(BuildScriptCall::InBetween, Event::ScriptLocated(false)),
        Action::RunArtifact
    );
    assert_eq!(
        react(BuildScriptCall::AfterCommand, Event::ScriptLocated(true)),
        Action::BuildScript
    );
    assert_eq!(
        react(BuildScriptCall::InBetween, Event::ScriptLocated(true)),
        Action::BuildScript
    );
    assert_eq!(react(BuildScriptCall::NoCall, Event::ScriptLocated(true)), Action::Exit(0));
}

#[test]
fn the_script_runs_after_it_was_built() {
    assert_eq!(react(BuildScriptCall::AfterCommand, Event::ScriptBuilt(OK)), Action::RunScript);
    assert_eq!(
        react(BuildScriptCall::AfterCommand, Event::ScriptBuilt(failed(2))),
        Action::Exit(2)
    );
}

#[test]
fn what_was_built_runs_after_the_script() {
    assert_eq!(react(BuildScriptCall::AfterCommand, Event::ScriptExited(OK)), Action::Exit(0));
    assert_eq!(react(BuildScriptCall::InBetween, Event::ScriptExited(OK)), Action::RunArtifact);
    assert_eq!(
        react(BuildScriptCall::InBetween, Event::ScriptExited(failed(7))),
        Action::Exit(7)
    );
    assert_eq!(react(BuildScriptCall::InBetween, Event::ArtifactExited(OK)), Action::Exit(0));
    assert_eq!(
        react(BuildScriptCall::InBetween, Event::ArtifactExited(failed(9))),
        Action::Exit(9)
    );
    assert_eq!(react(BuildScriptCall::InBetween, Event::ArtifactExited(KILLED)), Action::Exit(1));
}

fn plan_for(words: &[&str], host: &str) -> cargo_post::script::ScriptPlan {
    let arguments: Vec<String> = words.iter().map(|word| word.to_string()).collect();
    let packages = vec![PackageInfo {
        name: "dependency".to_string(),
        manifest_path: "/ws/dependency/Cargo.toml".to_string(),
    }];
    let context = resolve(&arguments, &packages, "/ws/target", &None, &None).unwrap();
    let declared = "example = { path = \"../example\" }".parse::<toml::Table>().unwrap();
    let moves = vec![("example".to_string(), "/ws/example".to_string())];
    plan_post_build_script(
        &context,
        host,
        "/home/user/.cargo",
        "/real/ws/target",
        &Some(toml::Value::Table(declared)),
        &moves,
    )
    .unwrap()
}

#[test]
fn a_build_for_the_host_is_planned() {
    let plan = plan_for(&["build"], "x86_64-unknown-linux-gnu");
    assert_eq!(plan.working_directory, "/home/user/.cargo");
    assert_eq!(plan.package.directory, "/real/ws/target/post_build_script_manifest");
    assert_eq!(
        plan.build_arguments,
        vec!["build", "--manifest-path", "/real/ws/target/post_build_script_manifest/Cargo.toml"]
    );
    assert_eq!(
        plan.binary,
        "/real/ws/target/post_build_script_manifest/target/debug/post-build-script"
    );
    assert_eq!(plan.environment.get("CRATE_OUT_DIR"), Some("/ws/target/debug"));
    let read = plan.package.manifest.parse::<toml::Table>().unwrap();
    assert_eq!(read["bin"][0]["path"].as_str(), Some("/ws/dependency/post_build.rs"));
    assert_eq!(read["dependencies"]["example"]["path"].as_str(), Some("/ws/example"));
}

#[test]
fn a_build_for_another_target_builds_the_script_for_the_host() {
    let plan = plan_for(&["build", "--target", "x86_64-unknown-none"], "x86_64-unknown-linux-gnu");
    assert_eq!(
        plan.build_arguments,
        vec![
            "build",
            "--manifest-path",
            "/real/ws/target/post_build_script_manifest/Cargo.toml",
            "--target",
            "x86_64-unknown-linux-gnu"
        ]
    );
    assert_eq!(
        plan.binary,
        "/real/ws/target/post_build_script_manifest/target/x86_64-unknown-linux-gnu/debug/post-build-script"
    );
    assert_eq!(plan.environment.get("CRATE_TARGET_TRIPLE"), Some("x86_64-unknown-none"));
    let same = plan_for(&["build", "--target", "x86_64-unknown-linux-gnu"], "x86_64-unknown-linux-gnu");
    assert_eq!(same.build_arguments.len(), 3);
}

fn words(list: &[&str]) -> Vec<String> {
    list.iter().map(|word| word.to_string()).collect()
}

#[test]
fn the_building_half_of_run_is_a_build() {
    assert_eq!(
        building_arguments(&words(&["run", "--release", "--", "--port", "80"])),
        vec!["build", "--release", "--message-format=json-render-diagnostics"]
    );
    assert_eq!(
        building_arguments(&words(&["run"])),
        vec!["build", "--message-format=json-render-diagnostics"]
    );
    assert_eq!(
        building_arguments(&words(&[])),
        vec!["build", "--message-format=json-render-diagnostics"]
    );
}

#[test]
fn the_building_half_of_test_does_not_run() {
    assert_eq!(
        building_arguments(&words(&["test", "-p", "dependency", "--", "--nocapture", "--"])),
        vec!["test", "--no-run", "-p", "dependency", "--message-format=json-render-diagnostics"]
    );
    assert_eq!(
        building_arguments(&words(&["test", "--"])),
        vec!["test", "--no-run", "--message-format=json-render-diagnostics"]
    );
}

#[test]
fn what_was_built_gets_the_arguments_after_the_separator() {
    assert_eq!(
        artifact_arguments(&words(&["run", "--release", "--", "--port", "80"])),
        vec!["--port", "80"]
    );
    assert_eq!(
        artifact_arguments(&words(&["test", "--", "--nocapture", "--", "x"])),
        vec!["--nocapture", "--", "x"]
    );
    assert_eq!(artifact_arguments(&words(&["run", "--release"])), Vec::<String>::new());
    assert_eq!(artifact_arguments(&words(&["run", "--"])), Vec::<String>::new());
    assert_eq!(artifact_arguments(&words(&[])), Vec::<String>::new());
    // Only a separator after the command counts.
    assert_eq!(artifact_arguments(&words(&["--", "a", "--", "b"])), vec!["b"]);
}
