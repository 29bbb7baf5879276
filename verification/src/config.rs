//! The search for the target that the configuration files of the build tool
//! name.
//!
//! The build tool reads its configuration from a file in the directory of
//! the package, then from one in each directory above it, and last from one
//! in its home directory. The engine looks in the same places in the same
//! order, and the first file that names a target decides.

use vstd::prelude::*;
use crate::document::{
    entry, member, parse_document, table_get, table_model, toml_document, value_as_str,
    value_as_table, Entries, Toml,
};
use crate::paths::{join_path, parent_path, path_join, path_parent};
use vstd::string::StrSliceExecFns;

verus! {

/// Why a configuration file could not be used.
#[derive(Clone, Copy, Debug, PartialEq, Eq, Structural)]
pub enum ConfigError {
    /// The file is not a TOML document.
    Malformed,
    /// The file names a target that is not a string.
    TargetNotText,
}

impl ConfigError {
    /// The error in words.
    pub open spec fn message(self) -> Seq<char> {
        match self {
            ConfigError::Malformed => "cannot parse cargo config toml"@,
            ConfigError::TargetNotText => "build.target should be a string"@,
        }
    }

    /// The error in words.
    pub fn describe(self) -> (words: &'static str)
        ensures
            words@ == self.message(),
    {
        match self {
            ConfigError::Malformed => "cannot parse cargo config toml",
            ConfigError::TargetNotText => "build.target should be a string",
        }
    }
}

/// The target that a configuration document names: what it has as `target`
/// in its table `build`.
///
/// A document without that table, or with the table and without the key,
/// names none. A target that is not a string is refused.
pub open spec fn build_target_in(document: Entries) -> Result<Option<Seq<char>>, ConfigError> {
    match entry(document, "build"@) {
        None => Ok(None),
        Some(build) => match member(build, "target"@) {
            None => Ok(None),
            Some(Toml::String(target)) => Ok(Some(target)),
            Some(_) => Err(ConfigError::TargetNotText),
        },
    }
}

/// The target that the configuration file with the content `content` names.
pub open spec fn build_target_of(content: Seq<char>) -> Result<Option<Seq<char>>, ConfigError> {
    match toml_document(content) {
        Some(document) => build_target_in(document),
        None => Err(ConfigError::Malformed),
    }
}

/// Reads the target that a configuration document names.
pub fn build_target(document: &toml::Table) -> (target: Result<Option<String>, ConfigError>)
    ensures
        match target {
            Ok(name) => build_target_in(table_model(*document)) == Ok::<
                Option<Seq<char>>,
                ConfigError,
            >(name.deep_view()),
            Err(error) => build_target_in(table_model(*document)) == Err::<
                Option<Seq<char>>,
                ConfigError,
            >(error),
        },
{
    let build: &toml::Value = match table_get(document, "build") {
        Some(build) => build,
        None => {
            return Ok(None);
        },
    };
    let table: &toml::Table = match value_as_table(build) {
        Some(table) => table,
        None => {
            return Ok(None);
        },
    };
    match table_get(table, "target") {
        Some(target) => match value_as_str(target) {
            Some(name) => Ok(Some(name.to_owned())),
            None => Err(ConfigError::TargetNotText),
        },
        None => Ok(None),
    }
}

/// Reads the target that the configuration file with the content `content`
/// names.
pub fn parse_build_target(content: &str) -> (target: Result<Option<String>, ConfigError>)
    ensures
        match target {
            Ok(name) => build_target_of(content@) == Ok::<Option<Seq<char>>, ConfigError>(
                name.deep_view(),
            ),
            Err(error) => build_target_of(content@) == Err::<Option<Seq<char>>, ConfigError>(
                error,
            ),
        },
{
    match parse_document(content) {
        Ok(document) => build_target(&document),
        Err(_) => Err(ConfigError::Malformed),
    }
}

/// The configuration file of the home directory `home`.
pub open spec fn home_candidate(home: Seq<char>) -> Seq<char> {
    path_join(home, "config.toml"@)
}

/// The two configuration files of `directory`, in the order in which they
/// are looked at.
pub open spec fn local_candidates(directory: Seq<char>) -> Seq<Seq<char>> {
    seq![path_join(directory, ".cargo/config"@), path_join(directory, ".cargo/config.toml"@)]
}

/// The configuration files to look at for a package in `directory`, nearest
/// first.
///
/// Each directory from `directory` upwards has two, `.cargo/config` and
/// `.cargo/config.toml`. The walk ends above the topmost directory, the one
/// without a parent, and the file `config.toml` of `home` is looked at once,
/// after all of them. A parent that is not shorter than its directory ends
/// the walk like a missing parent.
pub open spec fn candidates(directory: Seq<char>, home: Seq<char>) -> Seq<Seq<char>>
    decreases directory.len(),
{
    match path_parent(directory) {
        Some(parent) => if parent.len() < directory.len() {
            local_candidates(directory) + candidates(parent, home)
        } else {
            local_candidates(directory).push(home_candidate(home))
        },
        None => local_candidates(directory).push(home_candidate(home)),
    }
}

/// Lists the configuration files to look at for a package in `directory`,
/// nearest first.
pub fn config_candidates(directory: &str, home: &str) -> (files: Vec<String>)
    ensures
        files.deep_view() == candidates(directory@, home@),
{
    let mut files: Vec<String> = Vec::new();
    let mut current: String = directory.to_owned();
    loop
        invariant
            candidates(directory@, home@) == files.deep_view() + candidates(current@, home@),
        decreases current@.len(),
    {
        let ghost before = files.deep_view();
        let ghost here = local_candidates(current@);
        files.push(join_path(current.as_str(), ".cargo/config"));
        files.push(join_path(current.as_str(), ".cargo/config.toml"));
        assert(files.deep_view() =~= before + here);
        let parent: Option<String> = parent_path(current.as_str());
        let shorter: Option<String> = match parent {
            Some(parent) => if parent.as_str().unicode_len() < current.as_str().unicode_len() {
                Some(parent)
            } else {
                None
            },
            None => None,
        };
        match shorter {
            Some(parent) => {
                assert(candidates(current@, home@) == here + candidates(parent@, home@));
                assert(before + (here + candidates(parent@, home@)) =~= (before + here)
                    + candidates(parent@, home@));
                current = parent;
            },
            None => {
                files.push(join_path(home, "config.toml"));
                assert(candidates(current@, home@) == here.push(home_candidate(home@)));
                assert(files.deep_view() =~= before + here.push(home_candidate(home@)));
                return files;
            },
        }
    }
}

/// What the file system says of a configuration file.
#[derive(Clone, Debug, PartialEq, Eq)]
pub enum Probe {
    /// There is no such file.
    Missing,
    /// The file exists and this is its content.
    Found(String),
}

/// [`Probe`] as plain values.
pub enum ProbeView {
    Missing,
    Found(Seq<char>),
}

impl DeepView for Probe {
    type V = ProbeView;

    open spec fn deep_view(&self) -> ProbeView {
        match self {
            Probe::Missing => ProbeView::Missing,
            Probe::Found(content) => ProbeView::Found(content@),
        }
    }
}

/// The target that one configuration file names: none if the file is
/// missing, else what its content names.
pub open spec fn inspected(probe: ProbeView) -> Result<Option<Seq<char>>, ConfigError> {
    match probe {
        ProbeView::Missing => Ok(None),
        ProbeView::Found(content) => build_target_of(content),
    }
}

/// The outcome of looking at the files of `probes` from the place `from` on,
/// in order: the target of the first file that names one. A file that cannot
/// be used ends the search with its error, unless a file before it has named
/// a target.
pub open spec fn search_from(probes: Seq<ProbeView>, from: int) -> Result<
    Option<Seq<char>>,
    ConfigError,
>
    decreases probes.len() - from,
{
    if from < 0 || from >= probes.len() {
        Ok(None)
    } else {
        match inspected(probes[from]) {
            Ok(None) => search_from(probes, from + 1),
            decided => decided,
        }
    }
}

/// The outcome of looking at all the files of `probes`, nearest first.
pub open spec fn search(probes: Seq<ProbeView>) -> Result<Option<Seq<char>>, ConfigError> {
    search_from(probes, 0)
}

/// Reads the target that one configuration file names.
pub fn inspect(probe: &Probe) -> (target: Result<Option<String>, ConfigError>)
    ensures
        match target {
            Ok(name) => inspected(probe.deep_view()) == Ok::<Option<Seq<char>>, ConfigError>(
                name.deep_view(),
            ),
            Err(error) => inspected(probe.deep_view()) == Err::<Option<Seq<char>>, ConfigError>(
                error,
            ),
        },
{
    match probe {
        Probe::Missing => Ok(None),
        Probe::Found(content) => parse_build_target(content.as_str()),
    }
}

/// Finds the target that the configuration files name, from what the file
/// system says of each of them, nearest first.
pub fn find_cargo_config_target(probes: &Vec<Probe>) -> (target: Result<
    Option<String>,
    ConfigError,
>)
    ensures
        match target {
            Ok(name) => search(probes.deep_view()) == Ok::<Option<Seq<char>>, ConfigError>(
                name.deep_view(),
            ),
            Err(error) => search(probes.deep_view()) == Err::<Option<Seq<char>>, ConfigError>(
                error,
            ),
        },
{
    let ghost all = probes.deep_view();
    let mut place: usize = 0;
    while place < probes.len()
        invariant
            place <= probes.len(),
            all == probes.deep_view(),
            search_from(all, 0) == search_from(all, place as int),
        decreases probes.len() - place,
    {
        assert(all[place as int] == probes@[place as int].deep_view());
        match inspect(&probes[place]) {
            Ok(Some(name)) => {
                return Ok(Some(name));
            },
            Ok(None) => {},
            Err(error) => {
                return Err(error);
            },
        }
        place = place + 1;
    }
    Ok(None)
}

/// The nearest file that names a target decides, whatever the files after it
/// say: if one file names `target` and every file before it is missing or
/// names none, the search finds `target`.
pub proof fn lemma_nearest_wins(probes: Seq<ProbeView>, near: int, target: Seq<char>)
    requires
        0 <= near < probes.len(),
        inspected(probes[near]) == Ok::<Option<Seq<char>>, ConfigError>(Some(target)),
        forall|k: int|
            0 <= k < near ==> inspected(#[trigger] probes[k]) == Ok::<
                Option<Seq<char>>,
                ConfigError,
            >(None),
    ensures
        search(probes) == Ok::<Option<Seq<char>>, ConfigError>(Some(target)),
{
    lemma_search_skips(probes, 0, near);
}

/// Files that are missing or name no target change nothing: the search from
/// `from` is the search from `to` if no file between them decides.
pub proof fn lemma_search_skips(probes: Seq<ProbeView>, from: int, to: int)
    requires
        0 <= from <= to <= probes.len(),
        forall|k: int|
            from <= k < to ==> inspected(#[trigger] probes[k]) == Ok::<
                Option<Seq<char>>,
                ConfigError,
            >(None),
    ensures
        search_from(probes, from) == search_from(probes, to),
    decreases to - from,
{
    if from < to {
        lemma_search_skips(probes, from + 1, to);
    }
}

/// The files of a directory are looked at before those of the directories
/// above it, and the file of the home directory is looked at last, after
/// those of the topmost directory.
pub proof fn lemma_candidates_go_upwards(directory: Seq<char>, home: Seq<char>)
    ensures
        candidates(directory, home).len() >= 3,
        candidates(directory, home).take(2) == local_candidates(directory),
        path_parent(directory) matches Some(parent) ==> (parent.len() < directory.len()
            ==> candidates(directory, home).skip(2) == candidates(parent, home)),
        ends_at_home(candidates(directory, home), home),
{
    lemma_candidates_end_at_home(directory, home);
    assert(candidates(directory, home).take(2) =~= local_candidates(directory));
    match path_parent(directory) {
        Some(parent) => {
            if parent.len() < directory.len() {
                assert(candidates(directory, home).skip(2) =~= candidates(parent, home));
            }
        },
        None => {},
    }
}

/// Whether the last of `files` is the configuration file of `home`.
pub open spec fn ends_at_home(files: Seq<Seq<char>>, home: Seq<char>) -> bool {
    files.len() > 0 && files.last() == home_candidate(home)
}

/// Every search ends at the home directory, and looks there once: the last
/// file is that of the home directory, and the files before it come in pairs,
/// two for each directory of the walk.
pub proof fn lemma_candidates_end_at_home(directory: Seq<char>, home: Seq<char>)
    ensures
        ends_at_home(candidates(directory, home), home),
        candidates(directory, home).len() % 2 == 1,
    decreases directory.len(),
{
    match path_parent(directory) {
        Some(parent) => {
            if parent.len() < directory.len() {
                lemma_candidates_end_at_home(parent, home);
                assert(candidates(directory, home).last() == candidates(parent, home).last());
            } else {
                assert(candidates(directory, home).last() == home_candidate(home));
            }
        },
        None => {
            assert(candidates(directory, home).last() == home_candidate(home));
        },
    }
}

/// The walk does not look at the home directory on its way: which files of
/// which directories are looked at before the last does not depend on where
/// the home directory is.
pub proof fn lemma_walk_ignores_home(directory: Seq<char>, home: Seq<char>, other: Seq<char>)
    ensures
        candidates(directory, home).drop_last() == candidates(directory, other).drop_last(),
    decreases directory.len(),
{
    let here = local_candidates(directory);
    match path_parent(directory) {
        Some(parent) => {
            if parent.len() < directory.len() {
                lemma_walk_ignores_home(parent, home, other);
                lemma_candidates_end_at_home(parent, home);
                lemma_candidates_end_at_home(parent, other);
                let above = candidates(parent, home);
                let beside = candidates(parent, other);
                assert((here + above).drop_last() =~= here + above.drop_last());
                assert((here + beside).drop_last() =~= here + beside.drop_last());
            } else {
                assert(here.push(home_candidate(home)).drop_last() =~= here);
                assert(here.push(home_candidate(other)).drop_last() =~= here);
            }
        },
        None => {
            assert(here.push(home_candidate(home)).drop_last() =~= here);
            assert(here.push(home_candidate(other)).drop_last() =~= here);
        },
    }
}

/// A search in progress: the files to look at, how many of them have been
/// looked at, and the outcome once it is known.
///
/// The search asks for one file at a time, so that no file is read after the
/// one that decides.
#[derive(Debug)]
pub struct ConfigSearch {
    files: Vec<String>,
    place: usize,
    decided: Option<Result<Option<String>, ConfigError>>,
}

/// [`ConfigSearch`] as plain values.
pub struct SearchView {
    /// The files to look at, nearest first.
    pub files: Seq<Seq<char>>,
    /// How many of them have been looked at without an outcome.
    pub place: int,
    /// The outcome, once it is known.
    pub decided: Option<Result<Option<Seq<char>>, ConfigError>>,
}

/// The outcome of a search as plain values.
pub open spec fn outcome_view(outcome: Result<Option<String>, ConfigError>) -> Result<
    Option<Seq<char>>,
    ConfigError,
> {
    match outcome {
        Ok(target) => Ok(target.deep_view()),
        Err(error) => Err(error),
    }
}

impl View for ConfigSearch {
    type V = SearchView;

    closed spec fn view(&self) -> SearchView {
        SearchView {
            files: self.files.deep_view(),
            place: self.place as int,
            decided: match self.decided {
                Some(outcome) => Some(outcome_view(outcome)),
                None => None,
            },
        }
    }
}

impl SearchView {
    /// A search that has looked at none of `files` yet.
    pub open spec fn begun(files: Seq<Seq<char>>) -> SearchView {
        SearchView {
            files,
            place: 0,
            decided: if files.len() == 0 {
                Some(Ok(None))
            } else {
                None
            },
        }
    }

    /// What holds of every search: while it is undecided, a file is left to
    /// look at.
    pub open spec fn consistent(self) -> bool {
        &&& 0 <= self.place <= self.files.len()
        &&& self.decided is None ==> self.place < self.files.len()
    }

    /// The file to look at next; none once the search is decided.
    pub open spec fn pending(self) -> Option<Seq<char>> {
        if self.decided is None && 0 <= self.place < self.files.len() {
            Some(self.files[self.place])
        } else {
            None
        }
    }

    /// The search after it has learnt `probe` of its pending file.
    ///
    /// A file that names a target, or that cannot be used, decides. Otherwise
    /// the search moves on, and is decided without a target after the last
    /// file. A search that is decided learns nothing more.
    pub open spec fn recorded(self, probe: ProbeView) -> SearchView {
        if self.pending() is None {
            self
        } else {
            match inspected(probe) {
                Ok(None) => SearchView {
                    files: self.files,
                    place: self.place + 1,
                    decided: if self.place + 1 == self.files.len() {
                        Some(Ok(None))
                    } else {
                        None
                    },
                },
                decided => SearchView {
                    files: self.files,
                    place: self.place,
                    decided: Some(decided),
                },
            }
        }
    }

    /// The search after it has learnt each of `probes` in turn.
    pub open spec fn run(self, probes: Seq<ProbeView>) -> SearchView
        decreases probes.len(),
    {
        if probes.len() == 0 {
            self
        } else {
            self.recorded(probes[0]).run(probes.drop_first())
        }
    }
}

impl ConfigSearch {
    #[verifier::type_invariant]
    spec fn well_formed(self) -> bool {
        &&& self.place <= self.files.len()
        &&& self.decided is None ==> self.place < self.files.len()
    }

    /// Begins the search for a package in `directory`, with `home` as the
    /// home directory of the build tool.
    pub fn begin(directory: &str, home: &str) -> (search: ConfigSearch)
        ensures
            search@ == SearchView::begun(candidates(directory@, home@)),
            search@.consistent(),
    {
        let files: Vec<String> = config_candidates(directory, home);
        let decided = if files.len() == 0 {
            Some(Ok(None))
        } else {
            None
        };
        ConfigSearch { files, place: 0, decided }
    }

    /// The file to look at next; none once the search is decided.
    pub fn pending(&self) -> (file: Option<&str>)
        ensures
            match file {
                Some(path) => self@.pending() == Some(path@),
                None => self@.pending() is None,
            },
            self@.consistent(),
    {
        proof {
            use_type_invariant(self);
        }
        match self.decided {
            Some(_) => None,
            None => Some(self.files[self.place].as_str()),
        }
    }

    /// Takes what the file system says of the pending file.
    pub fn record(&mut self, probe: &Probe)
        ensures
            final(self)@ == old(self)@.recorded(probe.deep_view()),
            final(self)@.consistent(),
    {
        proof {
            use_type_invariant(&*self);
        }
        if self.decided.is_some() {
            return ;
        }
        match inspect(probe) {
            Ok(None) => {
                if self.place + 1 == self.files.len() {
                    self.decided = Some(Ok(None));
                }
                self.place = self.place + 1;
            },
            Ok(Some(target)) => {
                self.decided = Some(Ok(Some(target)));
            },
            Err(error) => {
                self.decided = Some(Err(error));
            },
        }
    }

    /// The outcome of the search, once it is decided.
    pub fn outcome(&self) -> (outcome: Option<Result<Option<String>, ConfigError>>)
        ensures
            match outcome {
                Some(decided) => self@.decided == Some(outcome_view(decided)),
                None => self@.decided is None,
            },
    {
        match &self.decided {
            Some(Ok(Some(target))) => Some(Ok(Some(target.clone()))),
            Some(Ok(None)) => Some(Ok(None)),
            Some(Err(error)) => Some(Err(*error)),
            None => None,
        }
    }
}

/// A search that is decided stays as it is, whatever it is told.
pub proof fn lemma_decided_search_stays(search: SearchView, probes: Seq<ProbeView>)
    requires
        search.decided is Some,
    ensures
        search.run(probes) == search,
    decreases probes.len(),
{
    if probes.len() > 0 {
        lemma_decided_search_stays(search, probes.drop_first());
    }
}

/// A search that is told of its files one at a time comes to the outcome of
/// the search over all of them: after `probes`, one for each file from its
/// place on, it is decided as [`search_from`] says.
pub proof fn lemma_run_from(search: SearchView, probes: Seq<ProbeView>)
    requires
        search.consistent(),
        search.decided is None,
        probes.len() == search.files.len(),
    ensures
        search.run(probes.skip(search.place)).decided == Some(search_from(probes, search.place)),
    decreases search.files.len() - search.place,
{
    let rest = probes.skip(search.place);
    assert(rest.len() > 0);
    assert(rest[0] == probes[search.place]);
    assert(rest.drop_first() =~= probes.skip(search.place + 1));
    let next = search.recorded(rest[0]);
    assert(search.pending() is Some);
    assert(search.run(rest) == next.run(rest.drop_first()));
    match inspected(probes[search.place]) {
        Ok(None) => {
            assert(search_from(probes, search.place) == search_from(probes, search.place + 1));
            if next.decided is Some {
                assert(search_from(probes, search.place + 1) == Ok::<
                    Option<Seq<char>>,
                    ConfigError,
                >(None));
                lemma_decided_search_stays(next, rest.drop_first());
            } else {
                lemma_run_from(next, probes);
            }
        },
        decided => {
            assert(search_from(probes, search.place) == decided);
            lemma_decided_search_stays(next, rest.drop_first());
        },
    }
}

/// Looking at the files one at a time finds what looking at all of them
/// finds.
pub proof fn lemma_run_is_search(files: Seq<Seq<char>>, probes: Seq<ProbeView>)
    requires
        probes.len() == files.len(),
    ensures
        SearchView::begun(files).run(probes).decided == Some(search(probes)),
{
    let begun = SearchView::begun(files);
    if files.len() == 0 {
        assert(begun.run(probes) == begun);
    } else {
        assert(probes.skip(0) =~= probes);
        lemma_run_from(begun, probes);
    }
}

} // verus!
