use cargo_post::options::{find_flag, parse_options, wants_release, Flag, Options, OptionsError};

fn args(words: &[&str]) -> Vec<String> {
    words.iter().map(|word| word.to_string()).collect()
}

#[test]
fn no_options_in_a_plain_build() {
    let parsed = parse_options(&args(&["build"])).unwrap();
    assert_eq!(
        parsed,
        Options { manifest_path: None, package: None, target: None, release: false }
    );
}

#[test]
fn value_follows_the_flag() {
    let parsed = parse_options(&args(&[
        "build",
        "--manifest-path",
        "sub/Cargo.toml",
        "-p",
        "dependency",
        "--target",
        "x86_64-unknown-none",
        "--release",
    ]))
    .unwrap();
    assert_eq!(parsed.manifest_path.as_deref(), Some("sub/Cargo.toml"));
    assert_eq!(parsed.package.as_deref(), Some("dependency"));
    assert_eq!(parsed.target.as_deref(), Some("x86_64-unknown-none"));
    assert!(parsed.release);
}

#[test]
fn value_joined_to_the_flag() {
    let parsed = parse_options(&args(&[
        "build",
        "--manifest-path=sub/Cargo.toml",
        "--package=dependency",
        "--target=thumbv7em-none-eabihf",
        "-r",
    ]))
    .unwrap();
    assert_eq!(parsed.manifest_path.as_deref(), Some("sub/Cargo.toml"));
    assert_eq!(parsed.package.as_deref(), Some("dependency"));
    assert_eq!(parsed.target.as_deref(), Some("thumbv7em-none-eabihf"));
    assert!(parsed.release);
}

#[test]
fn only_the_first_mention_counts() {
    let found = find_flag(&args(&["--target", "a", "--target", "b"]), Flag::Target);
    assert_eq!(found, Ok(Some("a".to_string())));
    let found = find_flag(&args(&["--target=b", "--target", "a"]), Flag::Target);
    assert_eq!(found, Ok(Some("b".to_string())));
}

#[test]
fn repeated_assignment_is_taken_off() {
    let found = find_flag(&args(&["--package=--package=x"]), Flag::Package);
    assert_eq!(found, Ok(Some("x".to_string())));
}

#[test]
fn an_argument_that_only_begins_like_a_flag_is_its_own_value() {
    let found = find_flag(&args(&["--target-dir", "out"]), Flag::Target);
    assert_eq!(found, Ok(Some("--target-dir".to_string())));
    let found = find_flag(&args(&["-pfoo"]), Flag::Package);
    assert_eq!(found, Ok(Some("-pfoo".to_string())));
}

#[test]
fn a_flag_without_value_is_refused() {
    assert_eq!(
        parse_options(&args(&["build", "--target"])),
        Err(OptionsError::MissingValue(Flag::Target))
    );
    assert_eq!(
        parse_options(&args(&["build", "--manifest-path"])),
        Err(OptionsError::MissingValue(Flag::ManifestPath))
    );
    assert_eq!(
        parse_options(&args(&["build", "-p"])),
        Err(OptionsError::MissingValue(Flag::Package))
    );
}

#[test]
fn option_errors_are_put_in_words() {
    assert_eq!(OptionsError::MissingValue(Flag::Target).describe(), "no target after --target");
    assert_eq!(
        OptionsError::MissingValue(Flag::ManifestPath).describe(),
        "no path after --manifest-path"
    );
    assert_eq!(OptionsError::MissingValue(Flag::Package).describe(), "no name after --package");
}

#[test]
fn release_needs_the_whole_word() {
    assert!(wants_release(&args(&["build", "--release"])));
    assert!(wants_release(&args(&["-r", "build"])));
    assert!(!wants_release(&args(&["build", "--release-notes", "-rx"])));
    assert!(!wants_release(&args(&[])));
}
