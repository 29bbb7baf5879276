//! What the post-build script can tell the engine through its output.
//!
//! Where a command runs what it built, the script may name another binary to
//! run in its place. It does so with a line of the form
//! `cargo:updated-bin=<old>=<new>` on its standard output, where `<old>` is
//! the binary that would run next. Such a line is taken out of the output;
//! every line that does not begin with `cargo:` is handed on as it is. A line
//! that begins with `cargo:` and is anything else is refused, since acting on
//! a misread line would run the wrong binary.

use vstd::prelude::*;
use crate::paths::{path_begins, path_starts_with};
use crate::script::Status;
use crate::text::{after, appended, starts_with};
use vstd::string::StrSliceExecFns;

verus! {

/// Why the output of the script, or what was built, is refused.
#[derive(Clone, Copy, Debug, PartialEq, Eq, Structural)]
pub enum ProtocolError {
    /// A line begins with `cargo:` and is no `updated-bin` line.
    UnknownInstruction,
    /// An `updated-bin` line is not about the binary that would run next.
    UnrelatedBinary,
    /// The binary that an `updated-bin` line names does not exist.
    MissingReplacement,
    /// Nothing was built that could run.
    NothingToRun,
    /// More than one binary was built and nothing says which is to run.
    AmbiguousBinary,
}

impl ProtocolError {
    /// The error in words.
    pub open spec fn message(self) -> Seq<char> {
        match self {
            ProtocolError::UnknownInstruction => "unknown instruction in post-build script output"@,
            ProtocolError::UnrelatedBinary =>
                "updated-bin does not refer to the binary that is about to run"@,
            ProtocolError::MissingReplacement => "the updated binary does not exist"@,
            ProtocolError::NothingToRun => "no binary was built: nothing to run"@,
            ProtocolError::AmbiguousBinary =>
                "more than one binary was built: specify explicitly which to run"@,
        }
    }

    /// The error in words.
    pub fn describe(self) -> (words: &'static str)
        ensures
            words@ == self.message(),
    {
        match self {
            ProtocolError::UnknownInstruction => "unknown instruction in post-build script output",
            ProtocolError::UnrelatedBinary =>
                "updated-bin does not refer to the binary that is about to run",
            ProtocolError::MissingReplacement => "the updated binary does not exist",
            ProtocolError::NothingToRun => "no binary was built: nothing to run",
            ProtocolError::AmbiguousBinary =>
                "more than one binary was built: specify explicitly which to run",
        }
    }
}

/// What to do with a line of the output of the script.
#[derive(Clone, Debug, PartialEq, Eq)]
pub enum LineAction {
    /// Hand the line on as it is.
    Forward,
    /// Keep the line back, and run this binary next if it exists.
    Substitute(String),
    /// End the run with this error.
    Refuse(ProtocolError),
}

/// [`LineAction`] as plain values.
pub enum LineReading {
    Forward,
    Substitute(Seq<char>),
    Refuse(ProtocolError),
}

impl DeepView for LineAction {
    type V = LineReading;

    open spec fn deep_view(&self) -> LineReading {
        match self {
            LineAction::Forward => LineReading::Forward,
            LineAction::Substitute(binary) => LineReading::Substitute(binary@),
            LineAction::Refuse(error) => LineReading::Refuse(*error),
        }
    }
}

/// What a line says when `binary` is the binary that would run next.
///
/// A line that does not begin with `cargo:` is handed on. Of the others only
/// `cargo:updated-bin=`, then `binary`, then `=`, then a new binary is
/// accepted, and names that new binary, which is all that follows the `=`.
pub open spec fn reading(line: Seq<char>, binary: Seq<char>) -> LineReading {
    if !"cargo:"@.is_prefix_of(line) {
        LineReading::Forward
    } else if !"cargo:updated-bin="@.is_prefix_of(line) {
        LineReading::Refuse(ProtocolError::UnknownInstruction)
    } else {
        let said = line.skip("cargo:updated-bin="@.len() as int);
        let old = binary + "="@;
        if old.is_prefix_of(said) {
            LineReading::Substitute(said.skip(old.len() as int))
        } else {
            LineReading::Refuse(ProtocolError::UnrelatedBinary)
        }
    }
}

/// Reads a line of the output of the script, where `binary` is the binary
/// that would run next.
pub fn read_line(line: &str, binary: &str) -> (action: LineAction)
    ensures
        action.deep_view() == reading(line@, binary@),
{
    if !starts_with(line, "cargo:") {
        return LineAction::Forward;
    }
    if !starts_with(line, "cargo:updated-bin=") {
        return LineAction::Refuse(ProtocolError::UnknownInstruction);
    }
    let said: String = after(line, "cargo:updated-bin=".unicode_len());
    let old: String = appended(binary, "=");
    if starts_with(said.as_str(), old.as_str()) {
        LineAction::Substitute(after(said.as_str(), old.as_str().unicode_len()))
    } else {
        LineAction::Refuse(ProtocolError::UnrelatedBinary)
    }
}

/// The binary to run next after an accepted `updated-bin` line: the named
/// one if it exists; if not, the run ends.
pub open spec fn replacement(named: Seq<char>, exists: bool) -> Result<Seq<char>, ProtocolError> {
    if exists {
        Ok(named)
    } else {
        Err(ProtocolError::MissingReplacement)
    }
}

/// Takes what the file system says of the binary that an `updated-bin` line
/// names, and gives the binary to run next.
pub fn replace(named: String, exists: bool) -> (next: Result<String, ProtocolError>)
    ensures
        match next {
            Ok(binary) => replacement(named@, exists) == Ok::<Seq<char>, ProtocolError>(binary@),
            Err(error) => replacement(named@, exists) == Err::<Seq<char>, ProtocolError>(error),
        },
{
    if exists {
        Ok(named)
    } else {
        Err(ProtocolError::MissingReplacement)
    }
}

/// How the run of the script ended, and the binary that it put in the place
/// of what was built, if it did.
#[derive(Clone, Debug, PartialEq, Eq)]
pub struct ScriptInvocationResult {
    /// How the process of the script ended.
    pub status: Status,
    /// The binary to run in the place of what was built.
    pub replacement: Option<String>,
}

impl ScriptInvocationResult {
    /// The binary to run after the script: the replacement if there is one,
    /// else `built`.
    pub fn artifact(&self, built: &str) -> (binary: String)
        ensures
            binary@ == match self.replacement {
                Some(replacement) => replacement@,
                None => built@,
            },
    {
        match &self.replacement {
            Some(replacement) => replacement.clone(),
            None => built.to_owned(),
        }
    }
}

/// The reading of the output of a running script: the binary that was built,
/// and the binary that the script has put in its place so far.
#[derive(Debug)]
pub struct Relay {
    built: String,
    replacement: Option<String>,
}

/// [`Relay`] as plain values.
pub struct RelayView {
    pub built: Seq<char>,
    pub replacement: Option<Seq<char>>,
}

impl RelayView {
    /// The binary that would run next.
    pub open spec fn next(self) -> Seq<char> {
        match self.replacement {
            Some(replacement) => replacement,
            None => self.built,
        }
    }

    /// The reading after an accepted line has named the binary `named`: if
    /// that exists it is the replacement from now on; if not, nothing has
    /// changed.
    pub open spec fn substituted(self, named: Seq<char>, exists: bool) -> RelayView {
        match replacement(named, exists) {
            Ok(binary) => RelayView { built: self.built, replacement: Some(binary) },
            Err(_) => self,
        }
    }
}

impl View for Relay {
    type V = RelayView;

    closed spec fn view(&self) -> RelayView {
        RelayView { built: self.built@, replacement: self.replacement.deep_view() }
    }
}

impl Relay {
    /// Begins to read the output of a script that runs before `built` does.
    pub fn begin(built: String) -> (relay: Relay)
        ensures
            relay@ == (RelayView { built: built@, replacement: None }),
    {
        Relay { built, replacement: None }
    }

    /// The binary that would run next.
    pub fn next_binary(&self) -> (binary: &str)
        ensures
            binary@ == self@.next(),
    {
        match &self.replacement {
            Some(replacement) => replacement.as_str(),
            None => self.built.as_str(),
        }
    }

    /// Reads a line of the output.
    pub fn read(&self, line: &str) -> (action: LineAction)
        ensures
            action.deep_view() == reading(line@, self@.next()),
    {
        read_line(line, self.next_binary())
    }

    /// Takes what the file system says of the binary that an accepted line
    /// names. If it exists it runs next; if not, the run ends.
    pub fn substitute(&mut self, named: String, exists: bool) -> (done: Result<(), ProtocolError>)
        ensures
            final(self)@ == old(self)@.substituted(named@, exists),
            match replacement(named@, exists) {
                Ok(_) => done is Ok,
                Err(error) => done == Err::<(), ProtocolError>(error),
            },
    {
        match replace(named, exists) {
            Ok(binary) => {
                self.replacement = Some(binary);
                Ok(())
            },
            Err(error) => Err(error),
        }
    }

    /// Ends the reading when the script has ended with `status`.
    pub fn finish(self, status: Status) -> (result: ScriptInvocationResult)
        ensures
            result.status == status,
            result.replacement.deep_view() == self@.replacement,
    {
        ScriptInvocationResult { status, replacement: self.replacement }
    }
}

/// Those of the first `count` of `executables` that are in `out_dir` or below
/// it, in order.
pub open spec fn built_in(executables: Seq<Seq<char>>, out_dir: Seq<char>, count: int) -> Seq<
    Seq<char>,
>
    decreases count,
{
    if count <= 0 || count > executables.len() {
        Seq::empty()
    } else {
        let before = built_in(executables, out_dir, count - 1);
        if path_starts_with(executables[count - 1], out_dir) {
            before.push(executables[count - 1])
        } else {
            before
        }
    }
}

/// The one binary of `built`. None, or more than one, is refused; the engine
/// does not choose.
pub open spec fn only_binary(built: Seq<Seq<char>>) -> Result<Seq<char>, ProtocolError> {
    if built.len() == 0 {
        Err(ProtocolError::NothingToRun)
    } else if built.len() == 1 {
        Ok(built[0])
    } else {
        Err(ProtocolError::AmbiguousBinary)
    }
}

/// The binary that a command runs after building: the one of `executables`
/// that is in the output directory or below it.
pub open spec fn binary_of(executables: Seq<Seq<char>>, out_dir: Seq<char>) -> Result<
    Seq<char>,
    ProtocolError,
> {
    only_binary(built_in(executables, out_dir, executables.len() as int))
}

/// Picks those of `executables` that are in `out_dir` or below it.
pub fn binaries_in(executables: &Vec<String>, out_dir: &str) -> (built: Vec<String>)
    ensures
        built.deep_view() == built_in(
            executables.deep_view(),
            out_dir@,
            executables.deep_view().len() as int,
        ),
{
    let ghost all = executables.deep_view();
    let mut built: Vec<String> = Vec::new();
    let mut place: usize = 0;
    while place < executables.len()
        invariant
            place <= executables.len(),
            all == executables.deep_view(),
            built.deep_view() == built_in(all, out_dir@, place as int),
        decreases executables.len() - place,
    {
        assert(all[place as int] == executables@[place as int]@);
        if path_begins(executables[place].as_str(), out_dir) {
            let ghost before = built.deep_view();
            built.push(executables[place].clone());
            assert(built.deep_view() =~= before.push(all[place as int]));
        }
        place = place + 1;
    }
    built
}

/// Takes the one binary of `built`, and refuses none and several.
pub fn single_binary(built: &Vec<String>) -> (binary: Result<String, ProtocolError>)
    ensures
        match binary {
            Ok(path) => only_binary(built.deep_view()) == Ok::<Seq<char>, ProtocolError>(path@),
            Err(error) => only_binary(built.deep_view()) == Err::<Seq<char>, ProtocolError>(
                error,
            ),
        },
{
    if built.len() == 0 {
        Err(ProtocolError::NothingToRun)
    } else if built.len() == 1 {
        assert(built.deep_view()[0] == built@[0]@);
        Ok(built[0].clone())
    } else {
        Err(ProtocolError::AmbiguousBinary)
    }
}

/// Finds the binary that a command runs after building among the executables
/// that the build reported.
pub fn discover_binary(executables: &Vec<String>, out_dir: &str) -> (binary: Result<
    String,
    ProtocolError,
>)
    ensures
        match binary {
            Ok(path) => binary_of(executables.deep_view(), out_dir@) == Ok::<
                Seq<char>,
                ProtocolError,
            >(path@),
            Err(error) => binary_of(executables.deep_view(), out_dir@) == Err::<
                Seq<char>,
                ProtocolError,
            >(error),
        },
{
    let built: Vec<String> = binaries_in(executables, out_dir);
    single_binary(&built)
}

/// Makes known what the two prefixes of the protocol hold.
proof fn reveal_prefixes()
    ensures
        "cargo:"@.len() == 6,
        "cargo:updated-bin="@.len() == 18,
        "cargo:"@.is_prefix_of("cargo:updated-bin="@),
        "="@.len() == 1,
{
    reveal_strlit("cargo:");
    reveal_strlit("cargo:updated-bin=");
    reveal_strlit("=");
    assert("cargo:updated-bin="@.subrange(0, 6) =~= "cargo:"@);
}

/// The line that says that `new` takes the place of `old`.
pub open spec fn update_line(old: Seq<char>, new: Seq<char>) -> Seq<char> {
    "cargo:updated-bin="@ + old + "="@ + new
}

/// An `updated-bin` line about the binary that would run next names the
/// binary to run in its place.
pub proof fn lemma_update_of_next_binary_substitutes(binary: Seq<char>, new: Seq<char>)
    ensures
        reading(update_line(binary, new), binary) == LineReading::Substitute(new),
{
    reveal_prefixes();
    let line = update_line(binary, new);
    let head = "cargo:updated-bin="@;
    let old = binary + "="@;
    assert(line.subrange(0, 18) =~= head);
    assert(line.subrange(0, 6) =~= "cargo:"@) by {
        assert(head.subrange(0, 6) =~= "cargo:"@);
    }
    let said = line.skip(18);
    assert(said =~= old + new);
    assert(said.subrange(0, old.len() as int) =~= old);
    assert(said.skip(old.len() as int) =~= new);
}

/// An `updated-bin` line about another binary than the one that would run
/// next is refused: a line whose old binary, with what follows it, does not
/// begin with the next binary and `=`.
pub proof fn lemma_update_of_other_binary_is_refused(
    other: Seq<char>,
    binary: Seq<char>,
    new: Seq<char>,
)
    requires
        !(binary + "="@).is_prefix_of(other + "="@ + new),
    ensures
        reading(update_line(other, new), binary) == LineReading::Refuse(
            ProtocolError::UnrelatedBinary,
        ),
{
    reveal_prefixes();
    let line = update_line(other, new);
    let head = "cargo:updated-bin="@;
    assert(line.subrange(0, 18) =~= head);
    assert(line.subrange(0, 6) =~= "cargo:"@) by {
        assert(head.subrange(0, 6) =~= "cargo:"@);
    }
    assert(line.skip(18) =~= other + "="@ + new);
}

/// A line that names a replacement for the binary that would run next is
/// accepted, and the replacement, if it exists, is what runs next from then
/// on. If it does not exist, the run ends and the reading is as before.
pub proof fn lemma_accepted_update_runs_next(relay: RelayView, new: Seq<char>)
    ensures
        reading(update_line(relay.next(), new), relay.next()) == LineReading::Substitute(new),
        relay.substituted(new, true).next() == new,
        relay.substituted(new, true).built == relay.built,
        replacement(new, false) == Err::<Seq<char>, ProtocolError>(
            ProtocolError::MissingReplacement,
        ),
        relay.substituted(new, false) == relay,
{
    lemma_update_of_next_binary_substitutes(relay.next(), new);
}

/// A line that does not begin with `cargo:` is handed on, whatever binary
/// would run next.
pub proof fn lemma_other_lines_pass(line: Seq<char>, binary: Seq<char>)
    requires
        !"cargo:"@.is_prefix_of(line),
    ensures
        reading(line, binary) == LineReading::Forward,
{
}

} // verus!
