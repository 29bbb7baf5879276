use cargo_post::manifest::{
    dependency_section, ephemeral_manifest, ephemeral_package, path_dependencies,
    read_script_dependencies, rewrite_paths, script_dependencies, script_manifest,
    script_manifest_path, script_package_dir, script_path, settle, ManifestError, PathDependency,
};

const MANIFEST: &str = r#"
[package]
name = "dependency"
version = "0.1.0"

[package.metadata.cargo-post.dependencies]
example = { path = "../example" }
serde = "1.0"
local = { path = "local", version = "0.3" }
remote = { git = "https://example.org/remote.git" }
"#;

fn dependencies() -> toml::Value {
    read_script_dependencies(MANIFEST).unwrap().unwrap()
}

#[test]
fn the_dependencies_of_the_script_are_read() {
    let found = dependencies();
    let table = found.as_table().unwrap();
    assert_eq!(table.len(), 4);
    assert_eq!(table["serde"].as_str(), Some("1.0"));
    assert_eq!(table["example"]["path"].as_str(), Some("../example"));
}

#[test]
fn a_manifest_without_them_has_none() {
    assert_eq!(read_script_dependencies("[package]\nname = \"x\"\n"), Ok(None));
    assert_eq!(read_script_dependencies(""), Ok(None));
    assert_eq!(
        read_script_dependencies("[package.metadata.cargo-post]\nother = 1\n"),
        Ok(None)
    );
    assert_eq!(read_script_dependencies("package = 1\n"), Ok(None));
    let document = "[package.metadata]\ncargo-post = \"x\"\n".parse::<toml::Table>().unwrap();
    assert_eq!(script_dependencies(&document), None);
}

#[test]
fn a_manifest_that_is_no_document_is_refused() {
    assert_eq!(read_script_dependencies("[package"), Err(ManifestError::Malformed));
}

#[test]
fn path_dependencies_are_listed_with_their_place() {
    let mut listed = path_dependencies(&dependencies(), "/ws/dependency").unwrap();
    listed.sort_by(|one, other| one.name.cmp(&other.name));
    assert_eq!(
        listed,
        vec![
            PathDependency {
                name: "example".to_string(),
                location: "/ws/dependency/../example".to_string(),
            },
            PathDependency {
                name: "local".to_string(),
                location: "/ws/dependency/local".to_string(),
            },
        ]
    );
}

#[test]
fn an_absolute_path_stays_as_it_is() {
    let declared = "dep = { path = \"/opt/dep\" }".parse::<toml::Table>().unwrap();
    let listed = path_dependencies(&toml::Value::Table(declared), "/ws/dependency").unwrap();
    assert_eq!(
        listed,
        vec![PathDependency { name: "dep".to_string(), location: "/opt/dep".to_string() }]
    );
}

#[test]
fn a_path_that_is_no_string_is_refused() {
    let declared = "good = { path = \"a\" }\nbad = { path = 3 }".parse::<toml::Table>().unwrap();
    assert_eq!(
        path_dependencies(&toml::Value::Table(declared), "/ws"),
        Err(ManifestError::PathNotText)
    );
}

#[test]
fn dependencies_that_are_no_table_have_no_paths() {
    assert_eq!(path_dependencies(&toml::Value::String("x".to_string()), "/ws"), Ok(Vec::new()));
    assert_eq!(path_dependencies(&toml::Value::Table(toml::Table::new()), "/ws"), Ok(Vec::new()));
}

#[test]
fn a_dependency_that_exists_is_paired_with_its_canonical_path() {
    let dependency = PathDependency {
        name: "example".to_string(),
        location: "/ws/dependency/../example".to_string(),
    };
    assert_eq!(
        settle(&dependency, Some("/ws/example".to_string())),
        Ok(("example".to_string(), "/ws/example".to_string()))
    );
}

#[test]
fn a_dependency_that_does_not_exist_is_refused_by_name() {
    let dependency = PathDependency {
        name: "example".to_string(),
        location: "/ws/dependency/../example".to_string(),
    };
    let error = settle(&dependency, None).unwrap_err();
    assert_eq!(
        error,
        ManifestError::MissingDependency {
            name: "example".to_string(),
            location: "/ws/dependency/../example".to_string(),
        }
    );
    assert_eq!(
        error.describe(),
        "Dependency example does not exist at /ws/dependency/../example"
    );
}

#[test]
fn paths_are_rewritten_and_the_rest_is_kept() {
    let moves = vec![
        ("example".to_string(), "/ws/example".to_string()),
        ("local".to_string(), "/ws/dependency/local".to_string()),
    ];
    let rewritten = rewrite_paths(&dependencies(), &moves);
    let table = rewritten.as_table().unwrap();
    assert_eq!(table.len(), 4);
    assert_eq!(table["example"]["path"].as_str(), Some("/ws/example"));
    assert_eq!(table["local"]["path"].as_str(), Some("/ws/dependency/local"));
    assert_eq!(table["local"]["version"].as_str(), Some("0.3"));
    assert_eq!(table["serde"].as_str(), Some("1.0"));
    assert_eq!(table["remote"]["git"].as_str(), Some("https://example.org/remote.git"));
    assert_eq!(table["remote"].get("path"), None);
}

#[test]
fn only_dependencies_with_a_path_are_rewritten() {
    let moves = vec![
        ("serde".to_string(), "/a".to_string()),
        ("remote".to_string(), "/b".to_string()),
        ("unknown".to_string(), "/c".to_string()),
    ];
    assert_eq!(rewrite_paths(&dependencies(), &moves), dependencies());
    let text = toml::Value::String("x".to_string());
    assert_eq!(rewrite_paths(&text, &moves), text);
}

#[test]
fn the_last_move_of_a_dependency_stays() {
    let moves = vec![
        ("example".to_string(), "/first".to_string()),
        ("example".to_string(), "/second".to_string()),
    ];
    let rewritten = rewrite_paths(&dependencies(), &moves);
    assert_eq!(rewritten["example"]["path"].as_str(), Some("/second"));
}

#[test]
fn the_section_of_the_dependencies_is_written() {
    assert_eq!(dependency_section(&None), Ok(String::new()));
    let declared = "example = { path = \"/ws/example\" }\nserde = \"1.0\""
        .parse::<toml::Table>()
        .unwrap();
    let section = dependency_section(&Some(toml::Value::Table(declared.clone()))).unwrap();
    assert_eq!(
        section,
        "[dependencies]\nserde = \"1.0\"\n\n[dependencies.example]\npath = \"/ws/example\"\n"
    );
    let read = section.parse::<toml::Table>().unwrap();
    assert_eq!(read["dependencies"], toml::Value::Table(declared));
}

#[test]
fn the_manifest_names_the_script_and_carries_the_section() {
    let manifest = script_manifest("/ws/dependency/post_build.rs", "[dependencies]\nserde = \"1.0\"\n");
    assert_eq!(
        manifest,
        "[package]\nname = \"post-build-script\"\nversion = \"0.1.0\"\nauthors = [\"cargo-post\"]\nedition = \"2018\"\n\n[[bin]]\nname = \"post-build-script\"\npath = \"/ws/dependency/post_build.rs\"\n\n[workspace]\n\n[dependencies]\nserde = \"1.0\"\n"
    );
    let read = manifest.parse::<toml::Table>().unwrap();
    assert_eq!(read["bin"][0]["path"].as_str(), Some("/ws/dependency/post_build.rs"));
    assert_eq!(read["dependencies"]["serde"].as_str(), Some("1.0"));
}

#[test]
fn the_path_of_the_script_is_quoted() {
    let manifest = script_manifest("C:\\ws\\a \"b\"\\post_build.rs", "");
    let read = manifest.parse::<toml::Table>().unwrap();
    assert_eq!(read["bin"][0]["path"].as_str(), Some("C:\\ws\\a \"b\"\\post_build.rs"));
    assert_eq!(read["bin"][0]["name"].as_str(), Some("post-build-script"));
    assert!(read.get("dependencies").is_none());
}

#[test]
fn the_places_of_the_generated_package_are_fixed() {
    assert_eq!(script_path("/ws/dependency"), "/ws/dependency/post_build.rs");
    assert_eq!(script_package_dir("/ws/target"), "/ws/target/post_build_script_manifest");
    assert_eq!(
        script_manifest_path("/ws/target/post_build_script_manifest"),
        "/ws/target/post_build_script_manifest/Cargo.toml"
    );
}

#[test]
fn manifest_errors_are_put_in_words() {
    assert_eq!(ManifestError::Malformed.describe(), "Failed to parse Cargo.toml");
    assert_eq!(ManifestError::PathNotText.describe(), "dependency path not a string");
    assert_eq!(
        ManifestError::Unwritable.describe(),
        "invalid toml in package.metadata.cargo-post.dependencies"
    );
}

#[test]
fn the_whole_manifest_is_made_from_the_declared_dependencies() {
    let declared = Some(dependencies());
    let moves = vec![
        ("example".to_string(), "/ws/example".to_string()),
        ("local".to_string(), "/ws/dependency/local".to_string()),
    ];
    let manifest = ephemeral_manifest("/ws/dependency/post_build.rs", &declared, &moves).unwrap();
    let read = manifest.parse::<toml::Table>().unwrap();
    assert_eq!(read["package"]["name"].as_str(), Some("post-build-script"));
    assert_eq!(read["bin"].as_array().unwrap().len(), 1);
    assert_eq!(read["bin"][0]["path"].as_str(), Some("/ws/dependency/post_build.rs"));
    assert!(read["workspace"].as_table().unwrap().is_empty());
    let copied = read["dependencies"].as_table().unwrap();
    assert_eq!(copied.len(), 4);
    assert_eq!(copied["example"]["path"].as_str(), Some("/ws/example"));
    assert_eq!(copied["local"]["path"].as_str(), Some("/ws/dependency/local"));
    assert_eq!(copied["serde"].as_str(), Some("1.0"));
}

#[test]
fn a_manifest_without_dependencies_has_no_section_for_them() {
    let manifest = ephemeral_manifest("/ws/dependency/post_build.rs", &None, &Vec::new()).unwrap();
    assert_eq!(manifest, script_manifest("/ws/dependency/post_build.rs", ""));
    assert!(manifest.ends_with("[workspace]\n\n"));
}

#[test]
fn the_package_is_placed_in_the_target_directory() {
    let package =
        ephemeral_package("/ws/target", "/ws/dependency/post_build.rs", &None, &Vec::new())
            .unwrap();
    assert_eq!(package.directory, "/ws/target/post_build_script_manifest");
    assert_eq!(package.manifest_path, "/ws/target/post_build_script_manifest/Cargo.toml");
    assert_eq!(package.manifest, script_manifest("/ws/dependency/post_build.rs", ""));
}
