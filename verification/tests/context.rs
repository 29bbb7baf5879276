use cargo_post::context::{
    asks_surroundings, build_command, choose_target, directory_from, manifest_dir, manifest_path, out_dir, resolve,
    select_package, target_triple, triple_from, PackageInfo, Profile, ResolveError, Target,
};
use cargo_post::options::{parse_options, Flag, OptionsError};

fn args(words: &[&str]) -> Vec<String> {
    words.iter().map(|word| word.to_string()).collect()
}

fn package(name: &str, manifest: &str) -> PackageInfo {
    PackageInfo { name: name.to_string(), manifest_path: manifest.to_string() }
}

#[test]
fn the_only_package_is_selected() {
    let packages = vec![package("cargo_config", "/ws/cargo_config/Cargo.toml")];
    assert_eq!(select_package(&packages, &None), Ok(0));
}

#[test]
fn a_package_is_selected_by_name() {
    let packages = vec![
        package("example", "/ws/example/Cargo.toml"),
        package("dependency", "/ws/dependency/Cargo.toml"),
        package("dependency", "/ws/other/Cargo.toml"),
    ];
    assert_eq!(select_package(&packages, &Some("dependency".to_string())), Ok(1));
    assert_eq!(
        select_package(&packages, &Some("missing".to_string())),
        Err(ResolveError::PackageNotFound)
    );
}

#[test]
fn several_packages_without_a_name_are_refused() {
    let packages = vec![
        package("example", "/ws/example/Cargo.toml"),
        package("dependency", "/ws/dependency/Cargo.toml"),
    ];
    assert_eq!(select_package(&packages, &None), Err(ResolveError::AmbiguousPackage));
    assert_eq!(select_package(&Vec::new(), &None), Err(ResolveError::NoPackages));
}

#[test]
fn the_explicit_manifest_path_goes_first() {
    let built = package("example", "/ws/example/Cargo.toml");
    assert_eq!(manifest_path(&Some("sub/Cargo.toml".to_string()), &built), "sub/Cargo.toml");
    assert_eq!(manifest_path(&None, &built), "/ws/example/Cargo.toml");
}

#[test]
fn the_manifest_directory_is_the_parent() {
    assert_eq!(manifest_dir("/ws/example/Cargo.toml"), Ok("/ws/example".to_string()));
    assert_eq!(manifest_dir("Cargo.toml"), Ok("".to_string()));
    assert_eq!(manifest_dir("/"), Err(ResolveError::NoManifestDirectory));
    assert_eq!(manifest_dir(""), Err(ResolveError::NoManifestDirectory));
}

#[test]
fn the_triple_is_the_file_stem() {
    assert_eq!(target_triple("x86_64-unknown-none"), Ok("x86_64-unknown-none".to_string()));
    assert_eq!(
        target_triple("targets/x86_64-blog_os.json"),
        Ok("x86_64-blog_os".to_string())
    );
    assert_eq!(target_triple(""), Err(ResolveError::MalformedTarget));
    assert_eq!(target_triple(".."), Err(ResolveError::MalformedTarget));
}

#[test]
fn the_flag_goes_before_the_environment_and_that_before_the_files() {
    let flag = Some("a.json".to_string());
    let environment = Some("b".to_string());
    let files = Some("c".to_string());
    assert_eq!(
        choose_target(&flag, &environment, &files),
        Ok(Some(Target { given: Some("a.json".to_string()), triple: "a".to_string() }))
    );
    assert_eq!(
        choose_target(&None, &environment, &files),
        Ok(Some(Target { given: Some("b".to_string()), triple: "b".to_string() }))
    );
    assert_eq!(
        choose_target(&None, &None, &files),
        Ok(Some(Target { given: None, triple: "c".to_string() }))
    );
    assert_eq!(choose_target(&None, &None, &None), Ok(None));
    assert_eq!(
        choose_target(&Some(String::new()), &environment, &files),
        Err(ResolveError::MalformedTarget)
    );
}

#[test]
fn the_surroundings_are_asked_only_without_a_target_option() {
    let without = parse_options(&args(&["build", "--release"])).unwrap();
    assert!(asks_surroundings(&without));
    let with = parse_options(&args(&["build", "--target", "x86_64-unknown-none"])).unwrap();
    assert!(!asks_surroundings(&with));
}

#[test]
fn the_output_directory_is_joined() {
    assert_eq!(out_dir("/ws/target", &None, Profile::Debug), "/ws/target/debug");
    assert_eq!(
        out_dir("/ws/target", &Some("x86_64-unknown-none".to_string()), Profile::Release),
        "/ws/target/x86_64-unknown-none/release"
    );
}

#[test]
fn the_build_command_is_written_out() {
    assert_eq!(build_command(&args(&["build"])), "cargo build");
    assert_eq!(
        build_command(&args(&["build", "--package", "cargo_config"])),
        "cargo build --package cargo_config"
    );
    assert_eq!(build_command(&args(&[])), "cargo ");
}

#[test]
fn a_build_for_the_host_is_resolved() {
    let packages = vec![package("cargo_config", "/ws/cargo_config/Cargo.toml")];
    let context = resolve(
        &args(&["build", "--package", "cargo_config"]),
        &packages,
        "/ws/target",
        &None,
        &None,
    )
    .unwrap();
    assert_eq!(context.manifest_dir(), "/ws/cargo_config");
    assert_eq!(context.manifest_path(), "/ws/cargo_config/Cargo.toml");
    assert_eq!(context.target_dir(), "/ws/target");
    assert_eq!(context.target(), &None);
    assert_eq!(context.profile(), Profile::Debug);
    assert_eq!(context.out_dir(), "/ws/target/debug");
    assert_eq!(context.build_command(), "cargo build --package cargo_config");
}

#[test]
fn an_explicit_target_is_resolved() {
    let packages = vec![package("example", "/ws/example/Cargo.toml")];
    let context = resolve(
        &args(&["build", "--target", "x86_64-unknown-none", "--release"]),
        &packages,
        "/ws/target",
        &Some("ignored".to_string()),
        &Some("ignored-too".to_string()),
    )
    .unwrap();
    assert_eq!(
        context.target(),
        &Some(Target {
            given: Some("x86_64-unknown-none".to_string()),
            triple: "x86_64-unknown-none".to_string(),
        })
    );
    assert_eq!(context.profile(), Profile::Release);
    assert_eq!(context.out_dir(), "/ws/target/x86_64-unknown-none/release");
}

#[test]
fn resolution_refuses_what_it_cannot_settle() {
    let two = vec![package("a", "/ws/a/Cargo.toml"), package("b", "/ws/b/Cargo.toml")];
    assert_eq!(
        resolve(&args(&["build"]), &two, "/ws/target", &None, &None).err(),
        Some(ResolveError::AmbiguousPackage)
    );
    assert_eq!(
        resolve(&args(&["build", "-p", "c"]), &two, "/ws/target", &None, &None).err(),
        Some(ResolveError::PackageNotFound)
    );
    assert_eq!(
        resolve(&args(&["build"]), &Vec::new(), "/ws/target", &None, &None).err(),
        Some(ResolveError::NoPackages)
    );
    assert_eq!(
        resolve(&args(&["build", "-p", "a", "--target"]), &two, "/ws/target", &None, &None).err(),
        Some(ResolveError::Arguments(OptionsError::MissingValue(Flag::Target)))
    );
    assert_eq!(
        resolve(&args(&["build", "-p", "a", "--target="]), &two, "/ws/target", &None, &None)
            .err(),
        Some(ResolveError::MalformedTarget)
    );
    assert_eq!(
        resolve(
            &args(&["build", "-p", "a", "--manifest-path", "/"]),
            &two,
            "/ws/target",
            &None,
            &None
        )
        .err(),
        Some(ResolveError::NoManifestDirectory)
    );
}

#[test]
fn errors_are_put_in_words() {
    assert_eq!(ResolveError::NoPackages.describe(), "workspace has no packages");
    assert_eq!(
        ResolveError::AmbiguousPackage.describe(),
        "Please specify a `--package` argument"
    );
    assert_eq!(ResolveError::PackageNotFound.describe(), "specified package not found");
    assert_eq!(ResolveError::NoManifestDirectory.describe(), "failed to get crate folder");
    assert_eq!(ResolveError::MalformedTarget.describe(), "target has no file stem");
    assert_eq!(
        ResolveError::Arguments(OptionsError::MissingValue(Flag::Target)).describe(),
        "no target after --target"
    );
}

#[test]
fn a_missing_or_empty_stem_gives_no_triple() {
    assert_eq!(
        triple_from(Some("thumbv7em-none-eabihf".to_string())),
        Ok("thumbv7em-none-eabihf".to_string())
    );
    assert_eq!(triple_from(Some(String::new())), Err(ResolveError::MalformedTarget));
    assert_eq!(triple_from(None), Err(ResolveError::MalformedTarget));
    assert_eq!(directory_from(Some("/ws".to_string())), Ok("/ws".to_string()));
    assert_eq!(directory_from(None), Err(ResolveError::NoManifestDirectory));
}
