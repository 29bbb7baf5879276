//! The manifest of the package that builds a post-build script.
//!
//! The package is made anew for every build. Its manifest names the script
//! as its only binary and carries the dependencies that the package of the
//! script declares for it, in the table `package.metadata.cargo-post.dependencies`
//! of its own manifest. Those are copied as they are, but for their paths: a
//! path is relative to the directory of the declaring manifest, and the copy
//! holds the canonical path that the file system gives for it.

use vstd::prelude::*;
use crate::document::{
    clone_table, clone_value, entry, member, new_table, parse_document, quote, string_value,
    table_get, table_insert, table_keys, table_model, table_value, toml_document, toml_quoted,
    toml_text, value_as_str, value_as_table, value_model, write_document, Entries, Toml,
};
use crate::paths::{join_path, path_join};
use vstd::string::StringExecFns;

verus! {

/// Why no manifest could be made.
#[derive(Clone, Debug, PartialEq, Eq)]
pub enum ManifestError {
    /// The manifest of the package is not a TOML document.
    Malformed,
    /// A dependency of the script has a path that is not a string.
    PathNotText,
    /// A dependency of the script has a path at which nothing exists.
    MissingDependency { name: String, location: String },
    /// The dependencies of the script cannot be written as TOML.
    Unwritable,
}

/// [`ManifestError`] as plain values.
pub enum ManifestFault {
    Malformed,
    PathNotText,
    MissingDependency { name: Seq<char>, location: Seq<char> },
    Unwritable,
}

impl DeepView for ManifestError {
    type V = ManifestFault;

    open spec fn deep_view(&self) -> ManifestFault {
        match self {
            ManifestError::Malformed => ManifestFault::Malformed,
            ManifestError::PathNotText => ManifestFault::PathNotText,
            ManifestError::MissingDependency { name, location } => {
                ManifestFault::MissingDependency { name: name@, location: location@ }
            },
            ManifestError::Unwritable => ManifestFault::Unwritable,
        }
    }
}

impl ManifestFault {
    /// The error in words.
    pub open spec fn message(self) -> Seq<char> {
        match self {
            ManifestFault::Malformed => "Failed to parse Cargo.toml"@,
            ManifestFault::PathNotText => "dependency path not a string"@,
            ManifestFault::MissingDependency { name, location } => "Dependency "@ + name
                + " does not exist at "@ + location,
            ManifestFault::Unwritable =>
                "invalid toml in package.metadata.cargo-post.dependencies"@,
        }
    }
}

impl ManifestError {
    /// The error in words.
    pub fn describe(&self) -> (words: String)
        ensures
            words@ == self.deep_view().message(),
    {
        match self {
            ManifestError::Malformed => "Failed to parse Cargo.toml".to_owned(),
            ManifestError::PathNotText => "dependency path not a string".to_owned(),
            ManifestError::MissingDependency { name, location } => {
                let mut words: String = "Dependency ".to_owned();
                words.append(name.as_str());
                words.append(" does not exist at ");
                words.append(location.as_str());
                words
            },
            ManifestError::Unwritable =>
                "invalid toml in package.metadata.cargo-post.dependencies".to_owned(),
        }
    }
}

/// Where the post-build script of a package is: the file `post_build.rs` in
/// the directory of its manifest.
pub open spec fn script_path_of(manifest_dir: Seq<char>) -> Seq<char> {
    path_join(manifest_dir, "post_build.rs"@)
}

/// The directory of the package that builds the script: the directory
/// `post_build_script_manifest` in the target directory.
pub open spec fn script_package_dir_of(target_dir: Seq<char>) -> Seq<char> {
    path_join(target_dir, "post_build_script_manifest"@)
}

/// The manifest of the package that builds the script: the file `Cargo.toml`
/// in its directory.
pub open spec fn script_manifest_path_of(package_dir: Seq<char>) -> Seq<char> {
    path_join(package_dir, "Cargo.toml"@)
}

/// Gives the place of the post-build script of a package.
pub fn script_path(manifest_dir: &str) -> (path: String)
    ensures
        path@ == script_path_of(manifest_dir@),
{
    join_path(manifest_dir, "post_build.rs")
}

/// Gives the directory of the package that builds the script.
pub fn script_package_dir(target_dir: &str) -> (path: String)
    ensures
        path@ == script_package_dir_of(target_dir@),
{
    join_path(target_dir, "post_build_script_manifest")
}

/// Gives the place of the manifest of the package that builds the script.
pub fn script_manifest_path(package_dir: &str) -> (path: String)
    ensures
        path@ == script_manifest_path_of(package_dir@),
{
    join_path(package_dir, "Cargo.toml")
}

/// The dependencies that a manifest declares for its post-build script: what
/// it has at `package.metadata.cargo-post.dependencies`.
pub open spec fn script_dependencies_in(manifest: Entries) -> Option<Toml> {
    match entry(manifest, "package"@) {
        Some(package) => match member(package, "metadata"@) {
            Some(metadata) => match member(metadata, "cargo-post"@) {
                Some(own) => member(own, "dependencies"@),
                None => None,
            },
            None => None,
        },
        None => None,
    }
}

/// The dependencies that the manifest with the text `manifest` declares for
/// its post-build script.
pub open spec fn script_dependencies_of(manifest: Seq<char>) -> Result<
    Option<Toml>,
    ManifestFault,
> {
    match toml_document(manifest) {
        Some(document) => Ok(script_dependencies_in(document)),
        None => Err(ManifestFault::Malformed),
    }
}

/// Looks up what `value` has under `key`.
fn value_member<'a>(value: &'a toml::Value, key: &str) -> (found: Option<&'a toml::Value>)
    ensures
        match found {
            Some(inner) => member(value_model(*value), key@) == Some(value_model(*inner)),
            None => member(value_model(*value), key@) is None,
        },
{
    match value_as_table(value) {
        Some(table) => table_get(table, key),
        None => None,
    }
}

/// Takes from a manifest the dependencies that it declares for its
/// post-build script.
pub fn script_dependencies(manifest: &toml::Table) -> (dependencies: Option<toml::Value>)
    ensures
        match dependencies {
            Some(value) => script_dependencies_in(table_model(*manifest)) == Some(
                value_model(value),
            ),
            None => script_dependencies_in(table_model(*manifest)) is None,
        },
{
    let package: &toml::Value = match table_get(manifest, "package") {
        Some(package) => package,
        None => {
            return None;
        },
    };
    let metadata: &toml::Value = match value_member(package, "metadata") {
        Some(metadata) => metadata,
        None => {
            return None;
        },
    };
    let own: &toml::Value = match value_member(metadata, "cargo-post") {
        Some(own) => own,
        None => {
            return None;
        },
    };
    match value_member(own, "dependencies") {
        Some(dependencies) => Some(clone_value(dependencies)),
        None => None,
    }
}

/// Reads from the text of a manifest the dependencies that it declares for
/// its post-build script.
pub fn read_script_dependencies(manifest: &str) -> (dependencies: Result<
    Option<toml::Value>,
    ManifestError,
>)
    ensures
        match dependencies {
            Ok(Some(value)) => script_dependencies_of(manifest@) == Ok::<
                Option<Toml>,
                ManifestFault,
            >(Some(value_model(value))),
            Ok(None) => script_dependencies_of(manifest@) == Ok::<Option<Toml>, ManifestFault>(
                None,
            ),
            Err(error) => error == ManifestError::Malformed && script_dependencies_of(manifest@)
                == Err::<Option<Toml>, ManifestFault>(ManifestFault::Malformed),
        },
{
    match parse_document(manifest) {
        Ok(document) => Ok(script_dependencies(&document)),
        Err(_) => Err(ManifestError::Malformed),
    }
}

/// A dependency of the script that is declared by a path.
#[derive(Clone, Debug, PartialEq, Eq)]
pub struct PathDependency {
    /// The name under which the dependency is declared.
    pub name: String,
    /// The declared path, joined to the directory of the declaring manifest.
    pub location: String,
}

/// [`PathDependency`] as plain values.
pub struct PathDependencyView {
    pub name: Seq<char>,
    pub location: Seq<char>,
}

impl DeepView for PathDependency {
    type V = PathDependencyView;

    open spec fn deep_view(&self) -> PathDependencyView {
        PathDependencyView { name: self.name@, location: self.location@ }
    }
}

/// The path that `dependencies` declare for the dependency `name`, if they
/// have such a dependency and it has a path.
pub open spec fn declared_path(dependencies: Toml, name: Seq<char>) -> Option<Toml> {
    match member(dependencies, name) {
        Some(dependency) => member(dependency, "path"@),
        None => None,
    }
}

/// Whether `dependencies` declare a path that is not a string.
pub open spec fn has_unusable_path(dependencies: Toml) -> bool {
    exists|name: Seq<char>| unusable_path(dependencies, name)
}

/// Whether `dependencies` declare for `name` a path that is not a string.
pub open spec fn unusable_path(dependencies: Toml, name: Seq<char>) -> bool {
    match declared_path(dependencies, name) {
        Some(path) => !(path is String),
        None => false,
    }
}

/// Whether `listed` are the dependencies with a path among `dependencies`:
/// each of them once, with its path joined to `manifest_dir`, and no other.
pub open spec fn lists_path_dependencies(
    dependencies: Toml,
    manifest_dir: Seq<char>,
    listed: Seq<PathDependencyView>,
) -> bool {
    &&& forall|i: int, j: int|
        0 <= i < j < listed.len() ==> (#[trigger] listed[i]).name != (#[trigger] listed[j]).name
    &&& forall|i: int|
        0 <= i < listed.len() ==> located(dependencies, manifest_dir, #[trigger] listed[i])
    &&& forall|name: Seq<char>|
        #[trigger] declared_path(dependencies, name) is Some ==> names_listed(listed, name)
}

/// Whether `dependency` is declared among `dependencies` with a path that,
/// joined to `manifest_dir`, gives its location.
pub open spec fn located(
    dependencies: Toml,
    manifest_dir: Seq<char>,
    dependency: PathDependencyView,
) -> bool {
    match declared_path(dependencies, dependency.name) {
        Some(Toml::String(path)) => dependency.location == path_join(manifest_dir, path),
        _ => false,
    }
}

/// Whether `name` is one of the first `count` of `names`.
pub open spec fn among(names: Seq<Seq<char>>, count: int, name: Seq<char>) -> bool {
    exists|k: int| 0 <= k < count && #[trigger] names[k] == name
}

/// Whether one of `listed` has the name `name`.
pub open spec fn names_listed(listed: Seq<PathDependencyView>, name: Seq<char>) -> bool {
    exists|i: int| 0 <= i < listed.len() && (#[trigger] listed[i]).name == name
}

/// Lists the dependencies of the script that are declared by a path, each
/// with the place where it should be: its path, joined to the directory of
/// the declaring manifest.
///
/// The list is refused if one of the paths is not a string. Dependencies
/// that are not a table have no dependency with a path.
pub fn path_dependencies(dependencies: &toml::Value, manifest_dir: &str) -> (listed: Result<
    Vec<PathDependency>,
    ManifestError,
>)
    ensures
        match listed {
            Ok(list) => !has_unusable_path(value_model(*dependencies)) && lists_path_dependencies(
                value_model(*dependencies),
                manifest_dir@,
                list.deep_view(),
            ),
            Err(error) => error == ManifestError::PathNotText && has_unusable_path(
                value_model(*dependencies),
            ),
        },
{
    let ghost model = value_model(*dependencies);
    let mut list: Vec<PathDependency> = Vec::new();
    let table: &toml::Table = match value_as_table(dependencies) {
        Some(table) => table,
        None => {
            assert forall|name: Seq<char>| declared_path(model, name) is None by {}
            return Ok(list);
        },
    };
    let ghost entries = table_model(*table);
    let keys: Vec<String> = table_keys(table);
    let ghost names = keys.deep_view();
    let mut place: usize = 0;
    while place < keys.len()
        invariant
            place <= keys.len(),
            names == keys.deep_view(),
            names.no_duplicates(),
            names.to_set() == entries.dom(),
            entries == table_model(*table),
            model == Toml::Table(entries),
            model == value_model(*dependencies),
            forall|k: int| 0 <= k < place ==> !unusable_path(model, #[trigger] names[k]),
            forall|k: int|
                0 <= k < place && declared_path(model, #[trigger] names[k]) is Some
                    ==> names_listed(list.deep_view(), names[k]),
            forall|i: int|
                0 <= i < list.len() ==> located(
                    model,
                    manifest_dir@,
                    #[trigger] list.deep_view()[i],
                ),
            forall|i: int|
                0 <= i < list.len() ==> among(
                    names,
                    place as int,
                    (#[trigger] list.deep_view()[i]).name,
                ),
            forall|i: int, j: int|
                0 <= i < j < list.len() ==> (#[trigger] list.deep_view()[i]).name != (
                #[trigger] list.deep_view()[j]).name,
        decreases keys.len() - place,
    {
        let key: &String = &keys[place];
        assert(names[place as int] == key@);
        assert(names.to_set().contains(key@));
        let ghost before = list.deep_view();
        let dependency: Option<&toml::Value> = table_get(table, key.as_str());
        let path: Option<&toml::Value> = match dependency {
            Some(dependency) => value_member(dependency, "path"),
            None => None,
        };
        match path {
            Some(path) => {
                match value_as_str(path) {
                    Some(text) => {
                        let found = PathDependency {
                            name: key.clone(),
                            location: join_path(manifest_dir, text),
                        };
                        list.push(found);
                        let ghost after = list.deep_view();
                        assert(after =~= before.push(found.deep_view()));
                        assert(after[before.len() as int].name == names[place as int]);
                        assert forall|k: int|
                            0 <= k < place + 1 && declared_path(model, #[trigger] names[k])
                                is Some implies names_listed(after, names[k]) by {
                            if k < place {
                                let i = choose|i: int|
                                    0 <= i < before.len() && (#[trigger] before[i]).name
                                        == names[k];
                                assert(after[i].name == names[k]);
                            } else {
                                assert(after[before.len() as int].name == names[k]);
                            }
                        }
                        assert forall|i: int| 0 <= i < after.len() implies among(
                            names,
                            place + 1,
                            (#[trigger] after[i]).name,
                        ) by {
                            if i < before.len() {
                                assert(among(names, place as int, before[i].name));
                                let k = choose|k: int|
                                    0 <= k < place && #[trigger] names[k] == before[i].name;
                                assert(names[k] == after[i].name);
                            } else {
                                assert(names[place as int] == after[i].name);
                            }
                        }
                        assert forall|i: int, j: int| 0 <= i < j < after.len() implies (
                        #[trigger] after[i]).name != (#[trigger] after[j]).name by {
                            if j == before.len() {
                                assert(among(names, place as int, before[i].name));
                                let k = choose|k: int|
                                    0 <= k < place && #[trigger] names[k] == before[i].name;
                                assert(names[k] != names[place as int]);
                            } else {
                                assert(before[i].name != before[j].name);
                            }
                        }
                    },
                    None => {
                        assert(unusable_path(model, key@));
                        return Err(ManifestError::PathNotText);
                    },
                }
            },
            None => {
                assert(declared_path(model, key@) is None);
            },
        }
        place = place + 1;
    }
    proof {
        let listed = list.deep_view();
        assert forall|name: Seq<char>| #[trigger]
            declared_path(model, name) is Some implies names_listed(listed, name) by {
            assert(entries.dom().contains(name));
            assert(names.to_set().contains(name));
            let k = choose|k: int| 0 <= k < names.len() && names[k] == name;
            assert(declared_path(model, names[k]) is Some);
        }
        assert forall|name: Seq<char>| !unusable_path(model, name) by {
            if declared_path(model, name) is Some {
                assert(entries.dom().contains(name));
                assert(names.to_set().contains(name));
                let k = choose|k: int| 0 <= k < names.len() && names[k] == name;
                assert(!unusable_path(model, names[k]));
            }
        }
    }
    Ok(list)
}

/// What becomes of a dependency for which nothing exists at its place: the
/// error that names it. For one that exists: its name with its canonical
/// path.
pub open spec fn settled(dependency: PathDependencyView, canonical: Option<Seq<char>>) -> Result<
    (Seq<char>, Seq<char>),
    ManifestFault,
> {
    match canonical {
        Some(path) => Ok((dependency.name, path)),
        None => Err(
            ManifestFault::MissingDependency {
                name: dependency.name,
                location: dependency.location,
            },
        ),
    }
}

/// Takes what the file system says of the place of a dependency: the
/// canonical path of what is there, or nothing. A dependency of which nothing
/// exists is refused by name; else the dependency is paired with its
/// canonical path.
pub fn settle(dependency: &PathDependency, canonical: Option<String>) -> (outcome: Result<
    (String, String),
    ManifestError,
>)
    ensures
        match outcome {
            Ok(pair) => settled(dependency.deep_view(), canonical.deep_view()) == Ok::<
                (Seq<char>, Seq<char>),
                ManifestFault,
            >(pair.deep_view()),
            Err(error) => settled(dependency.deep_view(), canonical.deep_view()) == Err::<
                (Seq<char>, Seq<char>),
                ManifestFault,
            >(error.deep_view()),
        },
{
    match canonical {
        Some(path) => Ok((dependency.name.clone(), path)),
        None => Err(
            ManifestError::MissingDependency {
                name: dependency.name.clone(),
                location: dependency.location.clone(),
            },
        ),
    }
}

/// `dependency` with `path` as its path, if it is a table with a path; else
/// `dependency` as it is.
pub open spec fn with_path(dependency: Toml, path: Seq<char>) -> Toml {
    match dependency {
        Toml::Table(entries) => if entries.contains_key("path"@) {
            Toml::Table(entries.insert("path"@, Toml::String(path)))
        } else {
            dependency
        },
        _ => dependency,
    }
}

/// `dependencies` with `path` as the path of the dependency `name`, if there
/// is such a dependency and it has a path; else `dependencies` as they are.
pub open spec fn relocated(dependencies: Toml, name: Seq<char>, path: Seq<char>) -> Toml {
    match dependencies {
        Toml::Table(entries) => if entries.contains_key(name) {
            Toml::Table(entries.insert(name, with_path(entries[name], path)))
        } else {
            dependencies
        },
        _ => dependencies,
    }
}

/// `dependencies` after each of `moves`, a name with a path, has been applied
/// in turn as by [`relocated`].
pub open spec fn rewritten(dependencies: Toml, moves: Seq<(Seq<char>, Seq<char>)>) -> Toml
    decreases moves.len(),
{
    if moves.len() == 0 {
        dependencies
    } else {
        relocated(rewritten(dependencies, moves.drop_last()), moves.last().0, moves.last().1)
    }
}

/// Copies the dependencies of the script, with the path of each dependency in
/// `moves` replaced by the path that goes with its name there.
pub fn rewrite_paths(dependencies: &toml::Value, moves: &Vec<(String, String)>) -> (copy:
    toml::Value)
    ensures
        value_model(copy) == rewritten(value_model(*dependencies), moves.deep_view()),
{
    let ghost model = value_model(*dependencies);
    let ghost all = moves.deep_view();
    let mut table: toml::Table = match value_as_table(dependencies) {
        Some(table) => clone_table(table),
        None => {
            proof {
                lemma_rewritten_keeps_others(model, all);
            }
            return clone_value(dependencies);
        },
    };
    let mut place: usize = 0;
    while place < moves.len()
        invariant
            place <= moves.len(),
            all == moves.deep_view(),
            Toml::Table(table_model(table)) == rewritten(model, all.take(place as int)),
        decreases moves.len() - place,
    {
        let name: &String = &moves[place].0;
        let path: &String = &moves[place].1;
        let ghost before = table_model(table);
        proof {
            let now = all.take(place + 1);
            assert(now.drop_last() =~= all.take(place as int));
            assert(now.last() == (name@, path@));
        }
        let moved: Option<toml::Value> = match table_get(&table, name.as_str()) {
            Some(dependency) => match value_as_table(dependency) {
                Some(inner) => {
                    if table_get(inner, "path").is_some() {
                        let mut copy: toml::Table = clone_table(inner);
                        table_insert(&mut copy, "path".to_owned(), string_value(path.clone()));
                        Some(table_value(copy))
                    } else {
                        None
                    }
                },
                None => None,
            },
            None => None,
        };
        match moved {
            Some(dependency) => {
                table_insert(&mut table, name.clone(), dependency);
            },
            None => {
                assert(relocated(Toml::Table(before), name@, path@) == Toml::Table(before)) by {
                    if before.contains_key(name@) {
                        assert(before.insert(name@, before[name@]) =~= before);
                    }
                }
            },
        }
        place = place + 1;
    }
    assert(all.take(place as int) =~= all);
    table_value(table)
}

/// What is not a table has no dependency to move.
pub proof fn lemma_rewritten_keeps_others(dependencies: Toml, moves: Seq<(Seq<char>, Seq<char>)>)
    requires
        !(dependencies is Table),
    ensures
        rewritten(dependencies, moves) == dependencies,
    decreases moves.len(),
{
    if moves.len() > 0 {
        lemma_rewritten_keeps_others(dependencies, moves.drop_last());
    }
}

/// The part of the manifest that holds the dependencies of the script: empty
/// without dependencies, else the document that has them under
/// `dependencies`.
pub open spec fn dependency_section_of(dependencies: Option<Toml>) -> Result<
    Seq<char>,
    ManifestFault,
> {
    match dependencies {
        Some(dependencies) => match toml_text(
            Entries::empty().insert("dependencies"@, dependencies),
        ) {
            Some(text) => Ok(text),
            None => Err(ManifestFault::Unwritable),
        },
        None => Ok(Seq::empty()),
    }
}

/// Writes the part of the manifest that holds the dependencies of the
/// script.
pub fn dependency_section(dependencies: &Option<toml::Value>) -> (section: Result<
    String,
    ManifestError,
>)
    ensures
        match (section, dependencies) {
            (Ok(text), Some(value)) => dependency_section_of(Some(value_model(*value))) == Ok::<
                Seq<char>,
                ManifestFault,
            >(text@),
            (Ok(text), None) => text@ == Seq::<char>::empty(),
            (Err(error), Some(value)) => error == ManifestError::Unwritable
                && dependency_section_of(Some(value_model(*value))) == Err::<
                Seq<char>,
                ManifestFault,
            >(ManifestFault::Unwritable),
            (Err(_), None) => false,
        },
{
    match dependencies {
        Some(value) => {
            let mut section: toml::Table = new_table();
            table_insert(&mut section, "dependencies".to_owned(), clone_value(value));
            match write_document(&section) {
                Ok(text) => Ok(text),
                Err(_) => Err(ManifestError::Unwritable),
            }
        },
        None => Ok(String::new()),
    }
}

/// What stands in the manifest before the place of the script: the package
/// and its one binary.
pub const MANIFEST_HEAD: &'static str = "[package]\n\
name = \"post-build-script\"\n\
version = \"0.1.0\"\n\
authors = [\"cargo-post\"]\n\
edition = \"2018\"\n\
\n\
[[bin]]\n\
name = \"post-build-script\"\n\
path = ";

/// What stands in the manifest between the place of the script and the
/// dependencies: an empty workspace table, so that the package belongs to no
/// workspace around it.
pub const MANIFEST_MIDDLE: &'static str = "\n\n[workspace]\n\n";

/// The manifest of the package that builds the script at `script`, with
/// `section` as the part that holds its dependencies.
pub open spec fn script_manifest_of(script: Seq<char>, section: Seq<char>) -> Seq<char> {
    MANIFEST_HEAD@ + toml_quoted(script) + MANIFEST_MIDDLE@ + section
}

/// Writes the manifest of the package that builds the script at `script`,
/// with `section` as the part that holds its dependencies.
pub fn script_manifest(script: &str, section: &str) -> (manifest: String)
    ensures
        manifest@ == script_manifest_of(script@, section@),
{
    let mut manifest: String = MANIFEST_HEAD.to_owned();
    let quoted: String = quote(script);
    manifest.append(quoted.as_str());
    manifest.append(MANIFEST_MIDDLE);
    manifest.append(section);
    manifest
}

/// What the dependencies of the script hold, if there are any.
pub open spec fn dependencies_model(dependencies: Option<toml::Value>) -> Option<Toml> {
    match dependencies {
        Some(value) => Some(value_model(value)),
        None => None,
    }
}

/// The manifest of the package that builds the script at `script`, with the
/// dependencies `dependencies` after `moves` have been applied to them.
pub open spec fn ephemeral_manifest_of(
    script: Seq<char>,
    dependencies: Option<Toml>,
    moves: Seq<(Seq<char>, Seq<char>)>,
) -> Result<Seq<char>, ManifestFault> {
    let copied = match dependencies {
        Some(declared) => Some(rewritten(declared, moves)),
        None => None,
    };
    match dependency_section_of(copied) {
        Ok(section) => Ok(script_manifest_of(script, section)),
        Err(error) => Err(error),
    }
}

/// Writes the manifest of the package that builds the script at `script`.
///
/// `dependencies` are the dependencies that are declared for the script, and
/// `moves` gives the canonical path of each of them that has a path.
pub fn ephemeral_manifest(
    script: &str,
    dependencies: &Option<toml::Value>,
    moves: &Vec<(String, String)>,
) -> (manifest: Result<String, ManifestError>)
    ensures
        match manifest {
            Ok(text) => ephemeral_manifest_of(
                script@,
                dependencies_model(*dependencies),
                moves.deep_view(),
            ) == Ok::<Seq<char>, ManifestFault>(text@),
            Err(error) => ephemeral_manifest_of(
                script@,
                dependencies_model(*dependencies),
                moves.deep_view(),
            ) == Err::<Seq<char>, ManifestFault>(error.deep_view()),
        },
{
    let copied: Option<toml::Value> = match dependencies {
        Some(declared) => Some(rewrite_paths(declared, moves)),
        None => None,
    };
    match dependency_section(&copied) {
        Ok(section) => Ok(script_manifest(script, section.as_str())),
        Err(error) => Err(error),
    }
}

/// The package that builds the script: a directory, and in it a manifest
/// with its text. It is made anew for every build and never taken away.
#[derive(Clone, Debug, PartialEq, Eq)]
pub struct EphemeralPackage {
    /// The directory of the package.
    pub directory: String,
    /// The place of its manifest.
    pub manifest_path: String,
    /// The text of its manifest.
    pub manifest: String,
}

/// Makes the package that builds the script at `script`, for a workspace
/// with the target directory `target_dir`.
///
/// `dependencies` are the dependencies that are declared for the script, and
/// `moves` gives the canonical path of each of them that has a path.
pub fn ephemeral_package(
    target_dir: &str,
    script: &str,
    dependencies: &Option<toml::Value>,
    moves: &Vec<(String, String)>,
) -> (package: Result<EphemeralPackage, ManifestError>)
    ensures
        match package {
            Ok(made) => {
                &&& made.directory@ == script_package_dir_of(target_dir@)
                &&& made.manifest_path@ == script_manifest_path_of(made.directory@)
                &&& ephemeral_manifest_of(
                    script@,
                    dependencies_model(*dependencies),
                    moves.deep_view(),
                ) == Ok::<Seq<char>, ManifestFault>(made.manifest@)
            },
            Err(error) => ephemeral_manifest_of(
                script@,
                dependencies_model(*dependencies),
                moves.deep_view(),
            ) == Err::<Seq<char>, ManifestFault>(error.deep_view()),
        },
{
    let manifest: String = match ephemeral_manifest(script, dependencies, moves) {
        Ok(text) => text,
        Err(error) => {
            return Err(error);
        },
    };
    let directory: String = script_package_dir(target_dir);
    let manifest_path: String = script_manifest_path(directory.as_str());
    Ok(EphemeralPackage { directory, manifest_path, manifest })
}

/// A dependency with a path has, once it is moved, the path that it was moved
/// to, and everything else that it had. The other dependencies are as they
/// were.
pub proof fn lemma_relocated(dependencies: Toml, name: Seq<char>, path: Seq<char>)
    requires
        declared_path(dependencies, name) is Some,
    ensures
        declared_path(relocated(dependencies, name, path), name) == Some(Toml::String(path)),
        forall|key: Seq<char>|
            key != "path"@ ==> member(
                member(relocated(dependencies, name, path), name)->0,
                key,
            ) == member(member(dependencies, name)->0, key),
        forall|other: Seq<char>|
            other != name ==> member(relocated(dependencies, name, path), other) == member(
                dependencies,
                other,
            ),
{
}

/// Moving a dependency changes nothing else: a dependency of another name is
/// as it was, and so is every dependency if the one to move is not there or
/// has no path.
pub proof fn lemma_relocated_keeps(
    dependencies: Toml,
    name: Seq<char>,
    path: Seq<char>,
    other: Seq<char>,
)
    ensures
        other != name ==> member(relocated(dependencies, name, path), other) == member(
            dependencies,
            other,
        ),
        declared_path(dependencies, name) is None ==> relocated(dependencies, name, path)
            == dependencies,
        declared_path(relocated(dependencies, name, path), other) is Some <==> declared_path(
            dependencies,
            other,
        ) is Some,
{
    match dependencies {
        Toml::Table(entries) => {
            if entries.contains_key(name) {
                if declared_path(dependencies, name) is None {
                    assert(entries.insert(name, entries[name]) =~= entries);
                }
            }
        },
        _ => {},
    }
}

/// Moves change no dependency that they do not name, and make no dependency
/// gain or lose its path.
pub proof fn lemma_rewritten_keeps(
    dependencies: Toml,
    moves: Seq<(Seq<char>, Seq<char>)>,
    other: Seq<char>,
)
    ensures
        (forall|i: int| 0 <= i < moves.len() ==> (#[trigger] moves[i]).0 != other) ==> member(
            rewritten(dependencies, moves),
            other,
        ) == member(dependencies, other),
        declared_path(rewritten(dependencies, moves), other) is Some <==> declared_path(
            dependencies,
            other,
        ) is Some,
    decreases moves.len(),
{
    if moves.len() > 0 {
        let before = rewritten(dependencies, moves.drop_last());
        lemma_rewritten_keeps(dependencies, moves.drop_last(), other);
        lemma_relocated_keeps(before, moves.last().0, moves.last().1, other);
        if forall|i: int| 0 <= i < moves.len() ==> (#[trigger] moves[i]).0 != other {
            assert forall|i: int| 0 <= i < moves.drop_last().len() implies (
            #[trigger] moves.drop_last()[i]).0 != other by {
                assert(moves.drop_last()[i] == moves[i]);
            }
            assert(moves.last() == moves[moves.len() - 1]);
        }
    }
}

/// In the copy, a dependency with a path has the path of the last move that
/// names it.
pub proof fn lemma_rewritten_path(
    dependencies: Toml,
    moves: Seq<(Seq<char>, Seq<char>)>,
    place: int,
)
    requires
        0 <= place < moves.len(),
        declared_path(dependencies, moves[place].0) is Some,
        forall|later: int|
            place < later < moves.len() ==> (#[trigger] moves[later]).0 != moves[place].0,
    ensures
        declared_path(rewritten(dependencies, moves), moves[place].0) == Some(
            Toml::String(moves[place].1),
        ),
    decreases moves.len(),
{
    let name = moves[place].0;
    let before = rewritten(dependencies, moves.drop_last());
    if place == moves.len() - 1 {
        lemma_rewritten_keeps(dependencies, moves.drop_last(), name);
        lemma_relocated(before, name, moves[place].1);
    } else {
        assert(moves.drop_last()[place] == moves[place]);
        assert forall|later: int| place < later < moves.drop_last().len() implies (
        #[trigger] moves.drop_last()[later]).0 != moves.drop_last()[place].0 by {
            assert(moves.drop_last()[later] == moves[later]);
        }
        lemma_rewritten_path(dependencies, moves.drop_last(), place);
        assert(moves.last() == moves[moves.len() - 1]);
        lemma_relocated_keeps(before, moves.last().0, moves.last().1, name);
    }
}

} // verus!
