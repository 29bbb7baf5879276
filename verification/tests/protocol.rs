use cargo_post::protocol::{
    binaries_in, discover_binary, read_line, replace, single_binary, LineAction, ProtocolError,
    Relay, ScriptInvocationResult,
};
use cargo_post::script::Status;

fn paths(words: &[&str]) -> Vec<String> {
    words.iter().map(|word| word.to_string()).collect()
}

#[test]
fn ordinary_lines_are_handed_on() {
    for line in ["", "ok", "Running post build", " cargo:updated-bin=a=b", "cargo", "Cargo:x"] {
        assert_eq!(read_line(line, "/t/debug/app"), LineAction::Forward);
    }
}

#[test]
fn an_update_of_the_next_binary_substitutes() {
    assert_eq!(
        read_line("cargo:updated-bin=/t/debug/app=/t/debug/app.signed", "/t/debug/app"),
        LineAction::Substitute("/t/debug/app.signed".to_string())
    );
}

#[test]
fn the_new_binary_is_all_that_follows() {
    assert_eq!(
        read_line("cargo:updated-bin=/t/a=b=/t/a=c", "/t/a=b"),
        LineAction::Substitute("/t/a=c".to_string())
    );
    assert_eq!(read_line("cargo:updated-bin=/t/a=", "/t/a"), LineAction::Substitute(String::new()));
}

#[test]
fn an_update_of_another_binary_is_refused() {
    assert_eq!(
        read_line("cargo:updated-bin=/t/debug/other=/t/debug/new", "/t/debug/app"),
        LineAction::Refuse(ProtocolError::UnrelatedBinary)
    );
    assert_eq!(
        read_line("cargo:updated-bin=/t/debug/app", "/t/debug/app"),
        LineAction::Refuse(ProtocolError::UnrelatedBinary)
    );
    assert_eq!(
        read_line("cargo:updated-bin=", "/t/debug/app"),
        LineAction::Refuse(ProtocolError::UnrelatedBinary)
    );
}

#[test]
fn another_instruction_is_refused() {
    for line in ["cargo:", "cargo:rerun-if-changed=build.rs", "cargo:updated-bin", "cargo:warning=x"] {
        assert_eq!(
            read_line(line, "/t/debug/app"),
            LineAction::Refuse(ProtocolError::UnknownInstruction)
        );
    }
}

#[test]
fn a_replacement_must_exist() {
    assert_eq!(replace("/t/new".to_string(), true), Ok("/t/new".to_string()));
    assert_eq!(replace("/t/new".to_string(), false), Err(ProtocolError::MissingReplacement));
}

#[test]
fn the_one_binary_in_the_output_directory_is_found() {
    let built = paths(&["/ws/target/release/app", "/ws/target/debug/app", "/elsewhere/debug/app"]);
    assert_eq!(discover_binary(&built, "/ws/target/debug"), Ok("/ws/target/debug/app".to_string()));
    let below = paths(&["/ws/target/debug/deps/app-0123"]);
    assert_eq!(
        discover_binary(&below, "/ws/target/debug/"),
        Ok("/ws/target/debug/deps/app-0123".to_string())
    );
}

#[test]
fn no_binary_is_nothing_to_run() {
    assert_eq!(discover_binary(&Vec::new(), "/ws/target/debug"), Err(ProtocolError::NothingToRun));
    let built = paths(&["/ws/target/debugger/app", "/ws/target/release/app"]);
    assert_eq!(discover_binary(&built, "/ws/target/debug"), Err(ProtocolError::NothingToRun));
}

#[test]
fn several_binaries_are_ambiguous() {
    let built = paths(&["/ws/target/debug/a", "/other/b", "/ws/target/debug/c"]);
    assert_eq!(discover_binary(&built, "/ws/target/debug"), Err(ProtocolError::AmbiguousBinary));
}

#[test]
fn protocol_errors_are_put_in_words() {
    assert_eq!(
        ProtocolError::NothingToRun.describe(),
        "no binary was built: nothing to run"
    );
    assert_eq!(
        ProtocolError::AmbiguousBinary.describe(),
        "more than one binary was built: specify explicitly which to run"
    );
    assert_eq!(
        ProtocolError::UnknownInstruction.describe(),
        "unknown instruction in post-build script output"
    );
    assert_eq!(
        ProtocolError::UnrelatedBinary.describe(),
        "updated-bin does not refer to the binary that is about to run"
    );
    assert_eq!(ProtocolError::MissingReplacement.describe(), "the updated binary does not exist");
}

#[test]
fn a_relay_follows_the_replacements() {
    let mut relay = Relay::begin("/t/debug/app".to_string());
    assert_eq!(relay.next_binary(), "/t/debug/app");
    assert_eq!(relay.read("plain output"), LineAction::Forward);
    assert_eq!(
        relay.read("cargo:updated-bin=/t/debug/app=/t/debug/app.1"),
        LineAction::Substitute("/t/debug/app.1".to_string())
    );
    assert_eq!(relay.substitute("/t/debug/app.1".to_string(), true), Ok(()));
    assert_eq!(relay.next_binary(), "/t/debug/app.1");
    // The binary that would run next is now the replacement.
    assert_eq!(
        relay.read("cargo:updated-bin=/t/debug/app=/t/debug/app.2"),
        LineAction::Refuse(ProtocolError::UnrelatedBinary)
    );
    assert_eq!(
        relay.read("cargo:updated-bin=/t/debug/app.1=/t/debug/app.2"),
        LineAction::Substitute("/t/debug/app.2".to_string())
    );
    assert_eq!(
        relay.substitute("/t/debug/app.2".to_string(), false),
        Err(ProtocolError::MissingReplacement)
    );
    assert_eq!(relay.next_binary(), "/t/debug/app.1");
    let result = relay.finish(Status { success: true, code: Some(0) });
    assert_eq!(
        result,
        ScriptInvocationResult {
            status: Status { success: true, code: Some(0) },
            replacement: Some("/t/debug/app.1".to_string()),
        }
    );
    assert_eq!(result.artifact("/t/debug/app"), "/t/debug/app.1");
}

#[test]
fn without_replacement_what_was_built_runs() {
    let relay = Relay::begin("/t/debug/app".to_string());
    let result = relay.finish(Status { success: false, code: None });
    assert_eq!(result.replacement, None);
    assert_eq!(result.artifact("/t/debug/app"), "/t/debug/app");
}

#[test]
fn binaries_are_picked_in_order() {
    let built = paths(&["/ws/target/debug/a", "/other/b", "/ws/target/debug/c"]);
    assert_eq!(
        binaries_in(&built, "/ws/target/debug"),
        paths(&["/ws/target/debug/a", "/ws/target/debug/c"])
    );
    assert_eq!(single_binary(&paths(&["/x"])), Ok("/x".to_string()));
    assert_eq!(single_binary(&paths(&[])), Err(ProtocolError::NothingToRun));
    assert_eq!(single_binary(&paths(&["/x", "/x"])), Err(ProtocolError::AmbiguousBinary));
}
