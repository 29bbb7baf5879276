//! The build context: which package was built, for which target, with which
//! profile, and where its artifacts are.
//!
//! [`resolve`] works the context out from the arguments handed on to the
//! build tool and from what the workspace and its surroundings say. It never
//! guesses: where the arguments leave the package or the target open in a way
//! that cannot be settled, it refuses.

use vstd::prelude::*;
use crate::options::{options_of, parse_options, Options, OptionsError};
use crate::paths::{file_stem, join_path, parent_path, path_file_stem, path_join, path_parent};
use crate::text::{appended, join, joined, same_text};

verus! {

/// A build mode of the build tool.
#[derive(Clone, Copy, Debug, PartialEq, Eq, Structural)]
pub enum Profile {
    Debug,
    Release,
}

impl Profile {
    /// The name of the profile, which is also the name of its directory.
    pub open spec fn name(self) -> Seq<char> {
        match self {
            Profile::Debug => "debug"@,
            Profile::Release => "release"@,
        }
    }

    /// The profile of a build: release if that was asked for, else debug.
    pub open spec fn of(release: bool) -> Profile {
        if release {
            Profile::Release
        } else {
            Profile::Debug
        }
    }

    /// The profile of a build: release if that was asked for, else debug.
    pub fn from_release(release: bool) -> (profile: Profile)
        ensures
            profile == Profile::of(release),
    {
        if release {
            Profile::Release
        } else {
            Profile::Debug
        }
    }

    /// The name of the profile, which is also the name of its directory.
    pub fn as_str(self) -> (name: &'static str)
        ensures
            name@ == self.name(),
    {
        match self {
            Profile::Debug => "debug",
            Profile::Release => "release",
        }
    }
}

/// Why no context could be resolved.
#[derive(Clone, Copy, Debug, PartialEq, Eq, Structural)]
pub enum ResolveError {
    /// The arguments could not be read.
    Arguments(OptionsError),
    /// The workspace has no package.
    NoPackages,
    /// The workspace has several packages and the arguments name none.
    AmbiguousPackage,
    /// The workspace has no package of the name that the arguments give.
    PackageNotFound,
    /// The manifest path has no directory above it.
    NoManifestDirectory,
    /// The target has no file stem from which a triple could be taken.
    MalformedTarget,
}

impl ResolveError {
    /// The error in words.
    pub open spec fn message(self) -> Seq<char> {
        match self {
            ResolveError::Arguments(error) => error.message(),
            ResolveError::NoPackages => "workspace has no packages"@,
            ResolveError::AmbiguousPackage => "Please specify a `--package` argument"@,
            ResolveError::PackageNotFound => "specified package not found"@,
            ResolveError::NoManifestDirectory => "failed to get crate folder"@,
            ResolveError::MalformedTarget => "target has no file stem"@,
        }
    }

    /// The error in words.
    pub fn describe(self) -> (words: &'static str)
        ensures
            words@ == self.message(),
    {
        match self {
            ResolveError::Arguments(error) => error.describe(),
            ResolveError::NoPackages => "workspace has no packages",
            ResolveError::AmbiguousPackage => "Please specify a `--package` argument",
            ResolveError::PackageNotFound => "specified package not found",
            ResolveError::NoManifestDirectory => "failed to get crate folder",
            ResolveError::MalformedTarget => "target has no file stem",
        }
    }
}

/// A package of the workspace, as far as the engine looks at it.
#[derive(Clone, Debug, PartialEq, Eq)]
pub struct PackageInfo {
    pub name: String,
    pub manifest_path: String,
}

/// [`PackageInfo`] as plain values.
pub struct PackageView {
    pub name: Seq<char>,
    pub manifest_path: Seq<char>,
}

impl DeepView for PackageInfo {
    type V = PackageView;

    open spec fn deep_view(&self) -> PackageView {
        PackageView { name: self.name@, manifest_path: self.manifest_path@ }
    }
}

/// The place of the first package at or after `from` with the name `name`,
/// or the number of packages if there is none.
pub open spec fn first_named(packages: Seq<PackageView>, name: Seq<char>, from: int) -> int
    decreases packages.len() - from,
{
    if from < 0 || from >= packages.len() {
        packages.len() as int
    } else if packages[from].name == name {
        from
    } else {
        first_named(packages, name, from + 1)
    }
}

/// The place of the package that was built.
///
/// With a name it is the first package of that name. Without one it is the
/// only package of the workspace; a workspace of several is refused.
pub open spec fn selected_package(packages: Seq<PackageView>, name: Option<Seq<char>>) -> Result<
    int,
    ResolveError,
> {
    match name {
        Some(name) => {
            let place = first_named(packages, name, 0);
            if place < packages.len() {
                Ok(place)
            } else {
                Err(ResolveError::PackageNotFound)
            }
        },
        None => if packages.len() == 0 {
            Err(ResolveError::NoPackages)
        } else if packages.len() == 1 {
            Ok(0)
        } else {
            Err(ResolveError::AmbiguousPackage)
        },
    }
}

/// Finds the package that was built among those of the workspace.
pub fn select_package(packages: &Vec<PackageInfo>, name: &Option<String>) -> (selected: Result<
    usize,
    ResolveError,
>)
    ensures
        match selected {
            Ok(place) => selected_package(packages.deep_view(), name.deep_view()) == Ok::<
                int,
                ResolveError,
            >(place as int),
            Err(error) => selected_package(packages.deep_view(), name.deep_view()) == Err::<
                int,
                ResolveError,
            >(error),
        },
{
    let ghost all = packages.deep_view();
    match name {
        Some(wanted) => {
            let mut place: usize = 0;
            while place < packages.len()
                invariant
                    place <= packages.len(),
                    all == packages.deep_view(),
                    name.deep_view() == Some(wanted@),
                    first_named(all, wanted@, 0) == first_named(all, wanted@, place as int),
                decreases packages.len() - place,
            {
                assert(all[place as int].name == packages@[place as int].name@);
                if same_text(packages[place].name.as_str(), wanted.as_str()) {
                    return Ok(place);
                }
                place = place + 1;
            }
            Err(ResolveError::PackageNotFound)
        },
        None => {
            if packages.len() == 0 {
                Err(ResolveError::NoPackages)
            } else if packages.len() == 1 {
                Ok(0)
            } else {
                Err(ResolveError::AmbiguousPackage)
            }
        },
    }
}

/// The manifest of the package that was built: the path that the arguments
/// give, else that of the package itself.
pub open spec fn manifest_path_of(explicit: Option<Seq<char>>, package: PackageView) -> Seq<char> {
    match explicit {
        Some(path) => path,
        None => package.manifest_path,
    }
}

/// The directory of a manifest, given the parent of its path: that parent,
/// and no directory at all where the path has no parent.
pub open spec fn directory_of(parent: Option<Seq<char>>) -> Result<Seq<char>, ResolveError> {
    match parent {
        Some(directory) => Ok(directory),
        None => Err(ResolveError::NoManifestDirectory),
    }
}

/// The directory of a manifest, if its path has one above it.
pub open spec fn manifest_dir_of(manifest_path: Seq<char>) -> Result<Seq<char>, ResolveError> {
    directory_of(path_parent(manifest_path))
}

/// The manifest of the package that was built: the path that the arguments
/// give, else that of the package itself.
pub fn manifest_path(explicit: &Option<String>, package: &PackageInfo) -> (path: String)
    ensures
        path@ == manifest_path_of(explicit.deep_view(), package.deep_view()),
{
    match explicit {
        Some(path) => path.clone(),
        None => package.manifest_path.clone(),
    }
}

/// Takes the directory of a manifest from the parent of its path.
pub fn directory_from(parent: Option<String>) -> (directory: Result<String, ResolveError>)
    ensures
        match directory {
            Ok(path) => directory_of(parent.deep_view()) == Ok::<Seq<char>, ResolveError>(path@),
            Err(error) => directory_of(parent.deep_view()) == Err::<Seq<char>, ResolveError>(
                error,
            ),
        },
{
    match parent {
        Some(directory) => Ok(directory),
        None => Err(ResolveError::NoManifestDirectory),
    }
}

/// The directory of a manifest, if its path has one above it.
pub fn manifest_dir(manifest_path: &str) -> (directory: Result<String, ResolveError>)
    ensures
        match directory {
            Ok(path) => manifest_dir_of(manifest_path@) == Ok::<Seq<char>, ResolveError>(path@),
            Err(error) => manifest_dir_of(manifest_path@) == Err::<Seq<char>, ResolveError>(error),
        },
{
    directory_from(parent_path(manifest_path))
}

/// The target of a build.
#[derive(Clone, Debug, PartialEq, Eq)]
pub struct Target {
    /// The target as the arguments or the environment gave it: a triple, or
    /// the path of a target specification. Absent where the target comes from
    /// a configuration file, which names a triple only.
    pub given: Option<String>,
    /// The triple of the target. Never empty.
    pub triple: String,
}

/// [`Target`] as plain values.
pub struct TargetView {
    pub given: Option<Seq<char>>,
    pub triple: Seq<char>,
}

impl DeepView for Target {
    type V = TargetView;

    open spec fn deep_view(&self) -> TargetView {
        TargetView { given: self.given.deep_view(), triple: self.triple@ }
    }
}

/// The triple that a file stem gives: the stem itself, unless it is missing
/// or empty.
pub open spec fn triple_of_stem(stem: Option<Seq<char>>) -> Result<Seq<char>, ResolveError> {
    match stem {
        Some(stem) => if stem.len() > 0 {
            Ok(stem)
        } else {
            Err(ResolveError::MalformedTarget)
        },
        None => Err(ResolveError::MalformedTarget),
    }
}

/// The triple that a target stands for: the file stem of its text, so that
/// the path of a target specification gives the name of its file.
pub open spec fn triple_of(target: Seq<char>) -> Result<Seq<char>, ResolveError> {
    triple_of_stem(path_file_stem(target))
}

/// The target of a build, from the three places that can name one.
///
/// The value of the `--target` option goes first, then the override from the
/// environment, then what the configuration files say. The build is for the
/// host if none of them names a target.
pub open spec fn chosen_target(
    explicit: Option<Seq<char>>,
    overriding: Option<Seq<char>>,
    configured: Option<Seq<char>>,
) -> Result<Option<TargetView>, ResolveError> {
    match explicit {
        Some(target) => given_target(target),
        None => match overriding {
            Some(target) => given_target(target),
            None => match configured {
                Some(target) => match triple_of(target) {
                    Ok(triple) => Ok(Some(TargetView { given: None, triple })),
                    Err(error) => Err(error),
                },
                None => Ok(None),
            },
        },
    }
}

/// The target that the arguments or the environment name.
pub open spec fn given_target(target: Seq<char>) -> Result<Option<TargetView>, ResolveError> {
    match triple_of(target) {
        Ok(triple) => Ok(Some(TargetView { given: Some(target), triple })),
        Err(error) => Err(error),
    }
}

/// Takes the triple from the file stem of a target.
pub fn triple_from(stem: Option<String>) -> (triple: Result<String, ResolveError>)
    ensures
        match triple {
            Ok(name) => triple_of_stem(stem.deep_view()) == Ok::<Seq<char>, ResolveError>(name@),
            Err(error) => triple_of_stem(stem.deep_view()) == Err::<Seq<char>, ResolveError>(
                error,
            ),
        },
{
    match stem {
        Some(stem) => {
            if stem.as_str().is_empty() {
                Err(ResolveError::MalformedTarget)
            } else {
                Ok(stem)
            }
        },
        None => Err(ResolveError::MalformedTarget),
    }
}

/// Takes the triple from the text of a target.
pub fn target_triple(target: &str) -> (triple: Result<String, ResolveError>)
    ensures
        match triple {
            Ok(name) => triple_of(target@) == Ok::<Seq<char>, ResolveError>(name@),
            Err(error) => triple_of(target@) == Err::<Seq<char>, ResolveError>(error),
        },
{
    triple_from(file_stem(target))
}

/// Whether the environment and the configuration files are asked for a
/// target at all: only where the arguments name none.
pub fn asks_surroundings(options: &Options) -> (asks: bool)
    ensures
        asks == (options@.target is None),
{
    options.target.is_none()
}

/// Settles the target of a build, from the three places that can name one.
pub fn choose_target(
    explicit: &Option<String>,
    overriding: &Option<String>,
    configured: &Option<String>,
) -> (chosen: Result<Option<Target>, ResolveError>)
    ensures
        match chosen {
            Ok(target) => chosen_target(
                explicit.deep_view(),
                overriding.deep_view(),
                configured.deep_view(),
            ) == Ok::<Option<TargetView>, ResolveError>(target.deep_view()),
            Err(error) => chosen_target(
                explicit.deep_view(),
                overriding.deep_view(),
                configured.deep_view(),
            ) == Err::<Option<TargetView>, ResolveError>(error),
        },
{
    let given: &Option<String> = if explicit.is_some() {
        explicit
    } else {
        overriding
    };
    match given {
        Some(target) => match target_triple(target.as_str()) {
            Ok(triple) => Ok(Some(Target { given: Some(target.clone()), triple })),
            Err(error) => Err(error),
        },
        None => match configured {
            Some(target) => match target_triple(target.as_str()) {
                Ok(triple) => Ok(Some(Target { given: None, triple })),
                Err(error) => Err(error),
            },
            None => Ok(None),
        },
    }
}

/// Where the artifacts of a build are: the target directory, then the triple
/// if the build has one, then the profile.
pub open spec fn out_dir_of(
    target_dir: Seq<char>,
    triple: Option<Seq<char>>,
    profile: Profile,
) -> Seq<char> {
    match triple {
        Some(triple) => path_join(path_join(target_dir, triple), profile.name()),
        None => path_join(target_dir, profile.name()),
    }
}

/// Works out where the artifacts of a build are.
pub fn out_dir(target_dir: &str, triple: &Option<String>, profile: Profile) -> (directory: String)
    ensures
        directory@ == out_dir_of(target_dir@, triple.deep_view(), profile),
{
    match triple {
        Some(triple) => {
            let under_triple = join_path(target_dir, triple.as_str());
            join_path(under_triple.as_str(), profile.as_str())
        },
        None => join_path(target_dir, profile.as_str()),
    }
}

/// The build command as text: the name of the build tool and the arguments
/// handed on to it, with one space between each two.
pub open spec fn build_command_of(arguments: Seq<Seq<char>>) -> Seq<char> {
    "cargo "@ + joined(arguments, " "@)
}

/// Writes the build command out as text.
pub fn build_command(arguments: &Vec<String>) -> (command: String)
    ensures
        command@ == build_command_of(arguments.deep_view()),
{
    let line = join(arguments, " ");
    appended("cargo ", line.as_str())
}

/// The context of one build, resolved once and not changed afterwards.
///
/// The output directory always follows from the target directory, the triple
/// and the profile, and a triple is never empty.
#[derive(Debug)]
pub struct ResolvedContext {
    manifest_dir: String,
    manifest_path: String,
    target_dir: String,
    target: Option<Target>,
    profile: Profile,
    out_dir: String,
    build_command: String,
}

/// [`ResolvedContext`] as plain values.
pub struct ContextView {
    /// The directory of the manifest of the package.
    pub manifest_dir: Seq<char>,
    /// The manifest of the package.
    pub manifest_path: Seq<char>,
    /// The directory under which the whole workspace is built.
    pub target_dir: Seq<char>,
    /// The target of the build; none for a build for the host.
    pub target: Option<TargetView>,
    /// The profile of the build.
    pub profile: Profile,
    /// The directory in which the artifacts of the build are.
    pub out_dir: Seq<char>,
    /// The build command as text.
    pub build_command: Seq<char>,
}

impl ContextView {
    /// The triple of the target, if the build has one.
    pub open spec fn triple(self) -> Option<Seq<char>> {
        match self.target {
            Some(target) => Some(target.triple),
            None => None,
        }
    }

    /// The target as it was given, if it was.
    pub open spec fn given_target(self) -> Option<Seq<char>> {
        match self.target {
            Some(target) => target.given,
            None => None,
        }
    }

    /// What holds of every resolved context: the output directory follows
    /// from the target directory, the triple and the profile, and a triple is
    /// not empty.
    pub open spec fn consistent(self) -> bool {
        &&& self.out_dir == out_dir_of(self.target_dir, self.triple(), self.profile)
        &&& match self.target {
            Some(target) => target.triple.len() > 0,
            None => true,
        }
    }
}

impl View for ResolvedContext {
    type V = ContextView;

    closed spec fn view(&self) -> ContextView {
        ContextView {
            manifest_dir: self.manifest_dir@,
            manifest_path: self.manifest_path@,
            target_dir: self.target_dir@,
            target: self.target.deep_view(),
            profile: self.profile,
            out_dir: self.out_dir@,
            build_command: self.build_command@,
        }
    }
}

/// The context of the build that `arguments` started, or the reason why
/// there is none.
///
/// `packages` are the packages of the workspace and `target_dir` is its
/// target directory. `overriding` is the target that the environment names,
/// `configured` the one that the configuration files name.
pub open spec fn resolved(
    arguments: Seq<Seq<char>>,
    packages: Seq<PackageView>,
    target_dir: Seq<char>,
    overriding: Option<Seq<char>>,
    configured: Option<Seq<char>>,
) -> Result<ContextView, ResolveError> {
    match options_of(arguments) {
        Err(error) => Err(ResolveError::Arguments(error)),
        Ok(options) => match selected_package(packages, options.package) {
            Err(error) => Err(error),
            Ok(place) => {
                let manifest_path = manifest_path_of(options.manifest_path, packages[place]);
                match manifest_dir_of(manifest_path) {
                    Err(error) => Err(error),
                    Ok(manifest_dir) => match chosen_target(
                        options.target,
                        overriding,
                        configured,
                    ) {
                        Err(error) => Err(error),
                        Ok(target) => {
                            let profile = Profile::of(options.release);
                            let triple = match target {
                                Some(target) => Some(target.triple),
                                None => None,
                            };
                            Ok(
                                ContextView {
                                    manifest_dir,
                                    manifest_path,
                                    target_dir,
                                    target,
                                    profile,
                                    out_dir: out_dir_of(target_dir, triple, profile),
                                    build_command: build_command_of(arguments),
                                },
                            )
                        },
                    },
                }
            },
        },
    }
}

/// Whether `outcome` is what [`resolve`] owes for these inputs.
pub open spec fn is_resolution(
    arguments: Seq<Seq<char>>,
    packages: Seq<PackageView>,
    target_dir: Seq<char>,
    overriding: Option<Seq<char>>,
    configured: Option<Seq<char>>,
    outcome: Result<ResolvedContext, ResolveError>,
) -> bool {
    match outcome {
        Ok(context) => resolved(arguments, packages, target_dir, overriding, configured) == Ok::<
            ContextView,
            ResolveError,
        >(context@),
        Err(error) => resolved(arguments, packages, target_dir, overriding, configured) == Err::<
            ContextView,
            ResolveError,
        >(error),
    }
}

/// Resolves the context of the build that `arguments` started.
///
/// `arguments` are the arguments handed on to the build tool, `packages` the
/// packages of the workspace and `target_dir` its target directory.
/// `overriding` is the target that the environment names, `configured` the one
/// that the configuration files name.
pub fn resolve(
    arguments: &Vec<String>,
    packages: &Vec<PackageInfo>,
    target_dir: &str,
    overriding: &Option<String>,
    configured: &Option<String>,
) -> (outcome: Result<ResolvedContext, ResolveError>)
    ensures
        is_resolution(
            arguments.deep_view(),
            packages.deep_view(),
            target_dir@,
            overriding.deep_view(),
            configured.deep_view(),
            outcome,
        ),
        outcome matches Ok(context) ==> context@.consistent(),
{
    let options: Options = match parse_options(arguments) {
        Ok(options) => options,
        Err(error) => {
            return Err(ResolveError::Arguments(error));
        },
    };
    let place: usize = match select_package(packages, &options.package) {
        Ok(place) => place,
        Err(error) => {
            return Err(error);
        },
    };
    let manifest_path: String = manifest_path(&options.manifest_path, &packages[place]);
    let manifest_dir: String = match manifest_dir(manifest_path.as_str()) {
        Ok(directory) => directory,
        Err(error) => {
            return Err(error);
        },
    };
    let target: Option<Target> = match choose_target(&options.target, overriding, configured) {
        Ok(target) => target,
        Err(error) => {
            return Err(error);
        },
    };
    let profile = Profile::from_release(options.release);
    let out_dir = match &target {
        Some(target) => {
            let triple = Some(target.triple.clone());
            out_dir(target_dir, &triple, profile)
        },
        None => out_dir(target_dir, &None, profile),
    };
    let build_command = build_command(arguments);
    Ok(
        ResolvedContext {
            manifest_dir,
            manifest_path,
            target_dir: target_dir.to_owned(),
            target,
            profile,
            out_dir,
            build_command,
        },
    )
}

impl ResolvedContext {
    #[verifier::type_invariant]
    spec fn well_formed(self) -> bool {
        self@.consistent()
    }

    /// The directory of the manifest of the package.
    pub fn manifest_dir(&self) -> (path: &str)
        ensures
            path@ == self@.manifest_dir,
    {
        self.manifest_dir.as_str()
    }

    /// The manifest of the package.
    pub fn manifest_path(&self) -> (path: &str)
        ensures
            path@ == self@.manifest_path,
    {
        self.manifest_path.as_str()
    }

    /// The directory under which the whole workspace is built.
    pub fn target_dir(&self) -> (path: &str)
        ensures
            path@ == self@.target_dir,
    {
        self.target_dir.as_str()
    }

    /// The target of the build; none for a build for the host.
    pub fn target(&self) -> (target: &Option<Target>)
        ensures
            target.deep_view() == self@.target,
            self@.consistent(),
    {
        proof {
            use_type_invariant(self);
        }
        &self.target
    }

    /// The profile of the build.
    pub fn profile(&self) -> (profile: Profile)
        ensures
            profile == self@.profile,
    {
        self.profile
    }

    /// The directory in which the artifacts of the build are.
    pub fn out_dir(&self) -> (path: &str)
        ensures
            path@ == self@.out_dir,
            self@.consistent(),
    {
        proof {
            use_type_invariant(self);
        }
        self.out_dir.as_str()
    }

    /// The build command as text.
    pub fn build_command(&self) -> (command: &str)
        ensures
            command@ == self@.build_command,
    {
        self.build_command.as_str()
    }
}

} // verus!
