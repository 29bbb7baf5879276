//! The environment contract: the variables through which a post-build script
//! learns the context of the build.
//!
//! The contract is a fixed list of eight variables. Each is always set; one
//! that has nothing to say is set to the empty text.

use vstd::prelude::*;
use crate::context::{
    is_resolution, resolved, triple_of, ContextView, PackageView, Profile, ResolveError,
    ResolvedContext, Target,
};
use crate::options::{asks_release, options_of};
use crate::paths::path_join;
use crate::text::same_text;

verus! {

/// The text of `value`, or the empty text if there is none.
pub open spec fn or_empty(value: Option<Seq<char>>) -> Seq<char> {
    match value {
        Some(text) => text,
        None => Seq::empty(),
    }
}

/// The variables that a build context stands for, in the order in which they
/// are set.
pub open spec fn environment_of(context: ContextView) -> Seq<(Seq<char>, Seq<char>)> {
    seq![
        ("CRATE_MANIFEST_DIR"@, context.manifest_dir),
        ("CRATE_MANIFEST_PATH"@, context.manifest_path),
        ("CRATE_TARGET_DIR"@, context.target_dir),
        ("CRATE_OUT_DIR"@, context.out_dir),
        ("CRATE_TARGET"@, or_empty(context.given_target())),
        ("CRATE_TARGET_TRIPLE"@, or_empty(context.triple())),
        ("CRATE_PROFILE"@, context.profile.name()),
        ("CRATE_BUILD_COMMAND"@, context.build_command),
    ]
}

/// The value of the first of `variables` at or after `from` that is called
/// `name`.
pub open spec fn value_from(variables: Seq<(Seq<char>, Seq<char>)>, name: Seq<char>, from: int)
    -> Option<Seq<char>>
    decreases variables.len() - from,
{
    if from < 0 || from >= variables.len() {
        None
    } else if variables[from].0 == name {
        Some(variables[from].1)
    } else {
        value_from(variables, name, from + 1)
    }
}

/// The value that `variables` give to `name`.
pub open spec fn value_of(variables: Seq<(Seq<char>, Seq<char>)>, name: Seq<char>) -> Option<
    Seq<char>,
> {
    value_from(variables, name, 0)
}

/// The variables handed to a post-build script.
#[derive(Debug)]
pub struct EnvironmentContract {
    variables: Vec<(String, String)>,
}

impl View for EnvironmentContract {
    type V = Seq<(Seq<char>, Seq<char>)>;

    closed spec fn view(&self) -> Seq<(Seq<char>, Seq<char>)> {
        self.variables.deep_view()
    }
}

/// The text of `value`, or the empty text if there is none.
fn text_or_empty(value: &Option<String>) -> (text: String)
    ensures
        text@ == or_empty(value.deep_view()),
{
    match value {
        Some(text) => text.clone(),
        None => String::new(),
    }
}

impl EnvironmentContract {
    #[verifier::type_invariant]
    spec fn well_formed(self) -> bool {
        exists|context: ContextView|
            context.consistent() && self.variables.deep_view() == environment_of(context)
    }

    /// The variables that `context` stands for.
    pub fn from_context(context: &ResolvedContext) -> (environment: EnvironmentContract)
        ensures
            environment@ == environment_of(context@),
            context@.consistent(),
    {
        let target: &Option<Target> = context.target();
        let (given, triple): (String, String) = match target {
            Some(target) => (text_or_empty(&target.given), target.triple.clone()),
            None => (String::new(), String::new()),
        };
        let mut variables: Vec<(String, String)> = Vec::new();
        variables.push(("CRATE_MANIFEST_DIR".to_owned(), context.manifest_dir().to_owned()));
        variables.push(("CRATE_MANIFEST_PATH".to_owned(), context.manifest_path().to_owned()));
        variables.push(("CRATE_TARGET_DIR".to_owned(), context.target_dir().to_owned()));
        variables.push(("CRATE_OUT_DIR".to_owned(), context.out_dir().to_owned()));
        variables.push(("CRATE_TARGET".to_owned(), given));
        variables.push(("CRATE_TARGET_TRIPLE".to_owned(), triple));
        variables.push(("CRATE_PROFILE".to_owned(), context.profile().as_str().to_owned()));
        variables.push(("CRATE_BUILD_COMMAND".to_owned(), context.build_command().to_owned()));
        assert(variables.deep_view() =~= environment_of(context@));
        EnvironmentContract { variables }
    }

    /// The variables, each with its value, in the order in which they are set.
    pub fn variables(&self) -> (variables: &Vec<(String, String)>)
        ensures
            variables.deep_view() == self@,
            exists|context: ContextView|
                context.consistent() && self@ == environment_of(context),
    {
        proof {
            use_type_invariant(self);
        }
        &self.variables
    }

    /// The value of the variable called `name`, if the contract has it.
    pub fn get(&self, name: &str) -> (value: Option<&str>)
        ensures
            match value {
                Some(text) => value_of(self@, name@) == Some(text@),
                None => value_of(self@, name@) is None,
            },
    {
        let ghost all = self.variables.deep_view();
        let mut place: usize = 0;
        while place < self.variables.len()
            invariant
                place <= self.variables.len(),
                all == self.variables.deep_view(),
                value_from(all, name@, 0) == value_from(all, name@, place as int),
            decreases self.variables.len() - place,
        {
            assert(all[place as int] == (
                self.variables@[place as int].0@,
                self.variables@[place as int].1@,
            ));
            if same_text(self.variables[place].0.as_str(), name) {
                return Some(self.variables[place].1.as_str());
            }
            place = place + 1;
        }
        None
    }
}

/// Makes known what the names of the variables and of the profiles hold.
proof fn reveal_names()
    ensures
        "CRATE_MANIFEST_DIR"@.len() == 18,
        "CRATE_MANIFEST_PATH"@.len() == 19,
        "CRATE_TARGET_DIR"@.len() == 16,
        "CRATE_OUT_DIR"@.len() == 13,
        "CRATE_TARGET"@.len() == 12,
        "CRATE_TARGET_TRIPLE"@.len() == 19,
        "CRATE_TARGET_TRIPLE"@[6] == 'T',
        "CRATE_MANIFEST_PATH"@[6] == 'M',
        "CRATE_PROFILE"@.len() == 13,
        "CRATE_PROFILE"@[6] == 'P',
        "CRATE_OUT_DIR"@[6] == 'O',
        "CRATE_BUILD_COMMAND"@.len() == 19,
        "CRATE_BUILD_COMMAND"@[6] == 'B',
        "debug"@.len() == 5,
        "release"@.len() == 7,
{
    reveal_strlit("CRATE_MANIFEST_DIR");
    reveal_strlit("CRATE_MANIFEST_PATH");
    reveal_strlit("CRATE_TARGET_DIR");
    reveal_strlit("CRATE_OUT_DIR");
    reveal_strlit("CRATE_TARGET");
    reveal_strlit("CRATE_TARGET_TRIPLE");
    reveal_strlit("CRATE_PROFILE");
    reveal_strlit("CRATE_BUILD_COMMAND");
    reveal_strlit("debug");
    reveal_strlit("release");
}

/// The eight variables are set in every contract, each to the part of the
/// context that it stands for; where the build has no target, the two
/// variables of the target are set to the empty text.
pub proof fn lemma_every_variable_is_set(context: ContextView)
    ensures
        value_of(environment_of(context), "CRATE_MANIFEST_DIR"@) == Some(context.manifest_dir),
        value_of(environment_of(context), "CRATE_MANIFEST_PATH"@) == Some(context.manifest_path),
        value_of(environment_of(context), "CRATE_TARGET_DIR"@) == Some(context.target_dir),
        value_of(environment_of(context), "CRATE_OUT_DIR"@) == Some(context.out_dir),
        value_of(environment_of(context), "CRATE_TARGET"@) == Some(
            or_empty(context.given_target()),
        ),
        value_of(environment_of(context), "CRATE_TARGET_TRIPLE"@) == Some(
            or_empty(context.triple()),
        ),
        value_of(environment_of(context), "CRATE_PROFILE"@) == Some(context.profile.name()),
        value_of(environment_of(context), "CRATE_BUILD_COMMAND"@) == Some(context.build_command),
{
    reveal_names();
    reveal_with_fuel(value_from, 9);
}

/// The profile variable is `debug` or `release` and nothing else.
pub proof fn lemma_profile_is_debug_or_release(context: ContextView)
    ensures
        value_of(environment_of(context), "CRATE_PROFILE"@) == Some("debug"@) || value_of(
            environment_of(context),
            "CRATE_PROFILE"@,
        ) == Some("release"@),
{
    lemma_every_variable_is_set(context);
}

/// The profile variable is `release` exactly if the arguments ask for a
/// release build, and `debug` otherwise.
pub proof fn lemma_profile_follows_arguments(
    arguments: Seq<Seq<char>>,
    packages: Seq<PackageView>,
    target_dir: Seq<char>,
    overriding: Option<Seq<char>>,
    configured: Option<Seq<char>>,
)
    ensures
        resolved(arguments, packages, target_dir, overriding, configured) matches Ok(context)
            ==> {
            &&& asks_release(arguments) <==> value_of(environment_of(context), "CRATE_PROFILE"@)
                == Some("release"@)
            &&& !asks_release(arguments) <==> value_of(environment_of(context), "CRATE_PROFILE"@)
                == Some("debug"@)
        },
{
    reveal_names();
    match resolved(arguments, packages, target_dir, overriding, configured) {
        Ok(context) => {
            lemma_every_variable_is_set(context);
            assert(context.profile == Profile::of(asks_release(arguments)));
        },
        Err(_) => {},
    }
}

/// The output directory variable is the target directory variable joined
/// with the triple variable, unless that is empty, and then with the profile
/// variable.
pub proof fn lemma_out_dir_is_joined(context: ContextView)
    requires
        context.consistent(),
    ensures
        ({
            let environment = environment_of(context);
            let target_dir = value_of(environment, "CRATE_TARGET_DIR"@)->0;
            let triple = value_of(environment, "CRATE_TARGET_TRIPLE"@)->0;
            let profile = value_of(environment, "CRATE_PROFILE"@)->0;
            let out_dir = value_of(environment, "CRATE_OUT_DIR"@)->0;
            out_dir == if triple.len() > 0 {
                path_join(path_join(target_dir, triple), profile)
            } else {
                path_join(target_dir, profile)
            }
        }),
{
    lemma_every_variable_is_set(context);
}

/// Resolving the same build twice gives the same outcome: two contexts with
/// the same variables, or the same error.
pub proof fn lemma_resolution_is_deterministic(
    arguments: Seq<Seq<char>>,
    packages: Seq<PackageView>,
    target_dir: Seq<char>,
    overriding: Option<Seq<char>>,
    configured: Option<Seq<char>>,
    first: Result<ResolvedContext, ResolveError>,
    second: Result<ResolvedContext, ResolveError>,
)
    requires
        is_resolution(arguments, packages, target_dir, overriding, configured, first),
        is_resolution(arguments, packages, target_dir, overriding, configured, second),
    ensures
        match (first, second) {
            (Ok(one), Ok(other)) => environment_of(one@) == environment_of(other@),
            (Err(one), Err(other)) => one == other,
            _ => false,
        },
{
}

/// A target that the arguments name decides, whatever the environment and
/// the configuration files say: the target variable holds it as it was
/// given, the triple variable holds its file stem, and the output directory
/// has the triple as a segment of its own.
pub proof fn lemma_explicit_target_decides(
    arguments: Seq<Seq<char>>,
    packages: Seq<PackageView>,
    target_dir: Seq<char>,
    overriding: Option<Seq<char>>,
    configured: Option<Seq<char>>,
)
    ensures
        resolved(arguments, packages, target_dir, overriding, configured) matches Ok(context)
            ==> (options_of(arguments) matches Ok(options) ==> (options.target matches Some(
            target,
        ) ==> (triple_of(target) matches Ok(triple) && {
            let environment = environment_of(context);
            &&& value_of(environment, "CRATE_TARGET"@) == Some(target)
            &&& value_of(environment, "CRATE_TARGET_TRIPLE"@) == Some(triple)
            &&& value_of(environment, "CRATE_OUT_DIR"@) == Some(
                path_join(path_join(target_dir, triple), context.profile.name()),
            )
        }))),
{
    match resolved(arguments, packages, target_dir, overriding, configured) {
        Ok(context) => {
            lemma_every_variable_is_set(context);
        },
        Err(_) => {},
    }
}

/// Where neither the arguments nor the environment name a target, the
/// configuration files decide, and they give a triple only: the target
/// variable is empty and the triple variable holds the file stem of what the
/// files name. Where they name nothing either, both variables are empty and
/// the output directory has no segment for a triple.
pub proof fn lemma_configured_target_gives_the_triple_only(
    arguments: Seq<Seq<char>>,
    packages: Seq<PackageView>,
    target_dir: Seq<char>,
    configured: Option<Seq<char>>,
)
    ensures
        resolved(arguments, packages, target_dir, None, configured) matches Ok(context) ==> (
        options_of(arguments) matches Ok(options) ==> (options.target is None ==> {
            let environment = environment_of(context);
            &&& value_of(environment, "CRATE_TARGET"@) == Some(Seq::<char>::empty())
            &&& match configured {
                Some(target) => triple_of(target) matches Ok(triple) && value_of(
                    environment,
                    "CRATE_TARGET_TRIPLE"@,
                ) == Some(triple),
                None => {
                    &&& value_of(environment, "CRATE_TARGET_TRIPLE"@) == Some(
                        Seq::<char>::empty(),
                    )
                    &&& value_of(environment, "CRATE_OUT_DIR"@) == Some(
                        path_join(target_dir, context.profile.name()),
                    )
                },
            }
        })),
{
    match resolved(arguments, packages, target_dir, None, configured) {
        Ok(context) => {
            lemma_every_variable_is_set(context);
        },
        Err(_) => {},
    }
}

} // verus!
