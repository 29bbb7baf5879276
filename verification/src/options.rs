//! The options that the engine reads from the arguments handed on to the
//! build tool.
//!
//! The arguments are read once, into an [`Options`] value; every later step
//! takes what it needs from there.

use vstd::prelude::*;
use crate::text::{same_text, starts_with, strip_leading, without_leading};

verus! {

/// An option of the build tool that takes a value and that the engine reads.
#[derive(Clone, Copy, Debug, PartialEq, Eq, Structural)]
pub enum Flag {
    ManifestPath,
    Package,
    Target,
}

impl Flag {
    /// The long form of the option.
    pub open spec fn long(self) -> Seq<char> {
        match self {
            Flag::ManifestPath => "--manifest-path"@,
            Flag::Package => "--package"@,
            Flag::Target => "--target"@,
        }
    }

    /// The short form of the option, where it has one.
    pub open spec fn short(self) -> Option<Seq<char>> {
        match self {
            Flag::Package => Some("-p"@),
            _ => None,
        }
    }

    /// What stands in front of the value when option and value are one
    /// argument.
    pub open spec fn assignment(self) -> Seq<char> {
        match self {
            Flag::ManifestPath => "--manifest-path="@,
            Flag::Package => "--package="@,
            Flag::Target => "--target="@,
        }
    }

    /// The long form of the option.
    pub fn long_name(self) -> (name: &'static str)
        ensures
            name@ == self.long(),
    {
        match self {
            Flag::ManifestPath => "--manifest-path",
            Flag::Package => "--package",
            Flag::Target => "--target",
        }
    }

    /// The short form of the option, where it has one.
    pub fn short_name(self) -> (name: Option<&'static str>)
        ensures
            match name {
                Some(short) => self.short() == Some(short@),
                None => self.short() is None,
            },
    {
        match self {
            Flag::Package => Some("-p"),
            _ => None,
        }
    }

    /// What stands in front of the value when option and value are one
    /// argument.
    pub fn assignment_prefix(self) -> (prefix: &'static str)
        ensures
            prefix@ == self.assignment(),
    {
        match self {
            Flag::ManifestPath => "--manifest-path=",
            Flag::Package => "--package=",
            Flag::Target => "--target=",
        }
    }
}

/// Why the arguments could not be read.
#[derive(Clone, Copy, Debug, PartialEq, Eq, Structural)]
pub enum OptionsError {
    /// The option is the last argument: the value it announces is missing.
    MissingValue(Flag),
}

impl OptionsError {
    /// The error in words.
    pub open spec fn message(self) -> Seq<char> {
        match self {
            OptionsError::MissingValue(Flag::ManifestPath) => "no path after --manifest-path"@,
            OptionsError::MissingValue(Flag::Package) => "no name after --package"@,
            OptionsError::MissingValue(Flag::Target) => "no target after --target"@,
        }
    }

    /// The error in words.
    pub fn describe(self) -> (words: &'static str)
        ensures
            words@ == self.message(),
    {
        match self {
            OptionsError::MissingValue(Flag::ManifestPath) => "no path after --manifest-path",
            OptionsError::MissingValue(Flag::Package) => "no name after --package",
            OptionsError::MissingValue(Flag::Target) => "no target after --target",
        }
    }
}

/// Whether `argument` begins like `flag`, in its long or its short form.
pub open spec fn mentions(argument: Seq<char>, flag: Flag) -> bool {
    flag.long().is_prefix_of(argument) || match flag.short() {
        Some(short) => short.is_prefix_of(argument),
        None => false,
    }
}

/// Whether `argument` is exactly `flag`, in its long or its short form.
pub open spec fn names(argument: Seq<char>, flag: Flag) -> bool {
    argument == flag.long() || flag.short() == Some(argument)
}

/// The place of the first argument at or after `from` that mentions `flag`,
/// or the number of arguments if there is none.
pub open spec fn first_mention(arguments: Seq<Seq<char>>, flag: Flag, from: int) -> int
    decreases arguments.len() - from,
{
    if from < 0 || from >= arguments.len() {
        arguments.len() as int
    } else if mentions(arguments[from], flag) {
        from
    } else {
        first_mention(arguments, flag, from + 1)
    }
}

/// The value that the arguments give to `flag`.
///
/// Only the first argument that mentions the flag counts. If it is the flag
/// itself, the value is the argument that follows; if none follows, the
/// arguments are refused. Otherwise the value is that argument without the
/// flag and `=` in front, however often they are repeated.
pub open spec fn flag_value(arguments: Seq<Seq<char>>, flag: Flag) -> Result<
    Option<Seq<char>>,
    OptionsError,
> {
    let place = first_mention(arguments, flag, 0);
    if place >= arguments.len() {
        Ok(None)
    } else if names(arguments[place], flag) {
        if place + 1 < arguments.len() {
            Ok(Some(arguments[place + 1]))
        } else {
            Err(OptionsError::MissingValue(flag))
        }
    } else {
        Ok(Some(without_leading(arguments[place], flag.assignment())))
    }
}

/// Whether one of the arguments asks for a release build.
pub open spec fn asks_release(arguments: Seq<Seq<char>>) -> bool {
    exists|place: int|
        0 <= place < arguments.len() && (#[trigger] arguments[place] == "--release"@
            || arguments[place] == "-r"@)
}

/// What the engine reads from the arguments.
#[derive(Clone, Debug, PartialEq, Eq)]
pub struct Options {
    /// The value of `--manifest-path`.
    pub manifest_path: Option<String>,
    /// The value of `--package` or `-p`.
    pub package: Option<String>,
    /// The value of `--target`.
    pub target: Option<String>,
    /// Whether `--release` or `-r` is among the arguments.
    pub release: bool,
}

/// [`Options`] as plain values.
pub struct OptionsView {
    pub manifest_path: Option<Seq<char>>,
    pub package: Option<Seq<char>>,
    pub target: Option<Seq<char>>,
    pub release: bool,
}

impl View for Options {
    type V = OptionsView;

    open spec fn view(&self) -> OptionsView {
        OptionsView {
            manifest_path: self.manifest_path.deep_view(),
            package: self.package.deep_view(),
            target: self.target.deep_view(),
            release: self.release,
        }
    }
}

/// The options that `arguments` hold, or the reason why they are refused.
///
/// The three values are looked up in the order manifest path, package,
/// target, and the first that is missing its value decides the error.
pub open spec fn options_of(arguments: Seq<Seq<char>>) -> Result<OptionsView, OptionsError> {
    match flag_value(arguments, Flag::ManifestPath) {
        Err(error) => Err(error),
        Ok(manifest_path) => match flag_value(arguments, Flag::Package) {
            Err(error) => Err(error),
            Ok(package) => match flag_value(arguments, Flag::Target) {
                Err(error) => Err(error),
                Ok(target) => Ok(
                    OptionsView {
                        manifest_path,
                        package,
                        target,
                        release: asks_release(arguments),
                    },
                ),
            },
        },
    }
}

/// Whether `argument` begins like `flag`.
fn argument_mentions(argument: &str, flag: Flag) -> (found: bool)
    ensures
        found == mentions(argument@, flag),
{
    if starts_with(argument, flag.long_name()) {
        return true;
    }
    match flag.short_name() {
        Some(short) => starts_with(argument, short),
        None => false,
    }
}

/// Whether `argument` is exactly `flag`.
fn argument_names(argument: &str, flag: Flag) -> (found: bool)
    ensures
        found == names(argument@, flag),
{
    if same_text(argument, flag.long_name()) {
        return true;
    }
    match flag.short_name() {
        Some(short) => same_text(argument, short),
        None => false,
    }
}

/// Looks up the value that `arguments` give to `flag`.
pub fn find_flag(arguments: &Vec<String>, flag: Flag) -> (found: Result<
    Option<String>,
    OptionsError,
>)
    ensures
        match found {
            Ok(value) => flag_value(arguments.deep_view(), flag) == Ok::<
                Option<Seq<char>>,
                OptionsError,
            >(value.deep_view()),
            Err(error) => flag_value(arguments.deep_view(), flag) == Err::<
                Option<Seq<char>>,
                OptionsError,
            >(error),
        },
{
    let ghost all = arguments.deep_view();
    let mut place: usize = 0;
    while place < arguments.len()
        invariant
            place <= arguments.len(),
            all == arguments.deep_view(),
            first_mention(all, flag, 0) == first_mention(all, flag, place as int),
        decreases arguments.len() - place,
    {
        let argument: &str = arguments[place].as_str();
        assert(all[place as int] == argument@);
        if argument_mentions(argument, flag) {
            if argument_names(argument, flag) {
                if place + 1 < arguments.len() {
                    let value: String = arguments[place + 1].clone();
                    assert(all[place + 1] == value@);
                    return Ok(Some(value));
                } else {
                    return Err(OptionsError::MissingValue(flag));
                }
            } else {
                return Ok(Some(strip_leading(argument, flag.assignment_prefix())));
            }
        }
        place = place + 1;
    }
    Ok(None)
}

/// Whether one of `arguments` asks for a release build.
pub fn wants_release(arguments: &Vec<String>) -> (release: bool)
    ensures
        release == asks_release(arguments.deep_view()),
{
    let ghost all = arguments.deep_view();
    let mut place: usize = 0;
    while place < arguments.len()
        invariant
            place <= arguments.len(),
            all == arguments.deep_view(),
            forall|k: int|
                0 <= k < place ==> !(#[trigger] all[k] == "--release"@ || all[k] == "-r"@),
        decreases arguments.len() - place,
    {
        let argument: &str = arguments[place].as_str();
        assert(all[place as int] == argument@);
        if same_text(argument, "--release") || same_text(argument, "-r") {
            return true;
        }
        place = place + 1;
    }
    false
}

/// Reads the options from the arguments handed on to the build tool.
pub fn parse_options(arguments: &Vec<String>) -> (parsed: Result<Options, OptionsError>)
    ensures
        match parsed {
            Ok(options) => options_of(arguments.deep_view()) == Ok::<OptionsView, OptionsError>(
                options@,
            ),
            Err(error) => options_of(arguments.deep_view()) == Err::<OptionsView, OptionsError>(
                error,
            ),
        },
{
    let manifest_path = match find_flag(arguments, Flag::ManifestPath) {
        Ok(value) => value,
        Err(error) => {
            return Err(error);
        },
    };
    let package = match find_flag(arguments, Flag::Package) {
        Ok(value) => value,
        Err(error) => {
            return Err(error);
        },
    };
    let target = match find_flag(arguments, Flag::Target) {
        Ok(value) => value,
        Err(error) => {
            return Err(error);
        },
    };
    let release = wants_release(arguments);
    Ok(Options { manifest_path, package, target, release })
}

} // verus!
