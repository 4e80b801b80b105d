use vstd::prelude::*;

use crate::basic_config::{
    config_result_view, default_spec, from_spec, logical_cpus, rooted, BasicConfig, BasicConfigView,
    UNROOTED,
};
use crate::document::{read_document, toml_document, Document, DocumentView};
use crate::environment::{active_spec, opt_str_view, Environment};
use crate::error::{ConfigError, ErrorView};
use crate::paths::{join_path, parent_of, path_join, path_parent};
use crate::text::same_text;

verus! {

/// Where the configuration file sits, relative to a directory being searched.
pub const CONFIG_FILENAME: &'static str = "config/env_config.toml";

/// The active environment and the configuration of every environment.
#[derive(Debug)]
pub struct EnvConfig {
    pub active_env: Environment,
    pub development: BasicConfig,
    pub staging: BasicConfig,
    pub production: BasicConfig,
}

pub struct EnvConfigView {
    pub active_env: Environment,
    pub development: BasicConfigView,
    pub staging: BasicConfigView,
    pub production: BasicConfigView,
}

impl View for EnvConfig {
    type V = EnvConfigView;

    open spec fn view(&self) -> EnvConfigView {
        EnvConfigView {
            active_env: self.active_env,
            development: self.development@,
            staging: self.staging@,
            production: self.production@,
        }
    }
}

impl EnvConfigView {
    /// The configuration of one environment.
    pub open spec fn config(self, env: Environment) -> BasicConfigView {
        match env {
            Environment::Development => self.development,
            Environment::Staging => self.staging,
            Environment::Production => self.production,
        }
    }

    /// This view with the configuration of `env` replaced.
    pub open spec fn with_config(self, env: Environment, c: BasicConfigView) -> EnvConfigView {
        match env {
            Environment::Development => EnvConfigView { development: c, ..self },
            Environment::Staging => EnvConfigView { staging: c, ..self },
            Environment::Production => EnvConfigView { production: c, ..self },
        }
    }

    /// The configurations, keyed by environment.
    pub open spec fn configs(self) -> Map<Environment, BasicConfigView> {
        Map::new(
            |e: Environment|
                e == Environment::Development || e == Environment::Staging || e
                    == Environment::Production,
            |e: Environment| self.config(e),
        )
    }
}

/// One step of the upward search for the configuration file.
#[derive(Debug)]
pub enum Search {
    /// The file was found at this path.
    Found(String),
    /// Search this directory next.
    Next(String),
    /// The search reached the top without finding the file.
    NotFound,
}

pub enum SearchView {
    Found(Seq<char>),
    Next(Seq<char>),
    NotFound,
}

impl View for Search {
    type V = SearchView;

    open spec fn view(&self) -> SearchView {
        match self {
            Search::Found(p) => SearchView::Found(p@),
            Search::Next(d) => SearchView::Next(d@),
            Search::NotFound => SearchView::NotFound,
        }
    }
}

/// The configuration file's path for directory `dir`.
pub open spec fn candidate_of(dir: Seq<char>) -> Seq<char> {
    path_join(dir, CONFIG_FILENAME@)
}

/// One step of the search: a file in `dir` is taken; otherwise the search
/// goes on in the parent directory, and ends at the top.
pub open spec fn step_spec(dir: Seq<char>, present: bool) -> SearchView {
    if present {
        SearchView::Found(candidate_of(dir))
    } else {
        match path_parent(dir) {
            Some(up) => SearchView::Next(up),
            None => SearchView::NotFound,
        }
    }
}

/// The search run step by step from `dir`, for at most `steps` moves
/// upward, where `files` are the paths that exist.
pub open spec fn run_search(dir: Seq<char>, files: Set<Seq<char>>, steps: nat) -> Option<Seq<char>>
    decreases steps,
{
    match step_spec(dir, files.contains(candidate_of(dir))) {
        SearchView::Found(p) => Some(p),
        SearchView::Next(up) => if steps == 0 {
            None
        } else {
            run_search(up, files, (steps - 1) as nat)
        },
        SearchView::NotFound => None,
    }
}

/// A directory followed by its ancestors: each entry is the parent of the
/// one before it, and the last has no parent.
pub open spec fn is_ancestry(chain: Seq<Seq<char>>) -> bool {
    &&& chain.len() > 0
    &&& forall|i: int| 0 <= i < chain.len() - 1 ==> path_parent(#[trigger] chain[i]) == Some(chain[i + 1])
    &&& path_parent(chain.last()) is None
}

pub open spec fn env_result_view(r: Result<EnvConfig, ConfigError>) -> Result<
    EnvConfigView,
    ErrorView,
> {
    match r {
        Ok(c) => Ok(c@),
        Err(e) => Err(e@),
    }
}

/// An environment's defaults, taken from the file at `file` if one is given.
pub open spec fn config_for(env: Environment, file: Option<Seq<char>>, cpus: nat) -> BasicConfigView {
    match file {
        None => default_spec(env, cpus),
        Some(p) => BasicConfigView {
            config_file_path: Some(p),
            root_path: path_parent(p),
            ..default_spec(env, cpus)
        },
    }
}

/// The outcome of building the defaults of every environment: a file path
/// that is not rooted in a directory fails first, then an unknown
/// environment variable.
pub open spec fn defaults_spec(
    file: Option<Seq<char>>,
    var: Option<Seq<char>>,
    release: bool,
    cpus: nat,
) -> Result<EnvConfigView, ErrorView> {
    match file {
        Some(p) if !rooted(p) => Err(ErrorView::BadFilePath(p, UNROOTED@)),
        _ => match active_spec(var, release) {
            Err(e) => Err(e),
            Ok(active) => Ok(
                EnvConfigView {
                    active_env: active,
                    development: config_for(Environment::Development, file, cpus),
                    staging: config_for(Environment::Staging, file, cpus),
                    production: config_for(Environment::Production, file, cpus),
                },
            ),
        },
    }
}

/// The first top-level entry whose value is not a table.
pub open spec fn first_misfit(entries: Seq<(Seq<char>, Seq<char>)>) -> Option<
    (Seq<char>, Seq<char>),
>
    decreases entries.len(),
{
    if entries.len() == 0 {
        None
    } else if entries[0].1 != "table"@ {
        Some(entries[0])
    } else {
        first_misfit(entries.drop_first())
    }
}

/// The outcome of loading a document read from the file at `path`.
pub open spec fn parse_spec(
    doc: DocumentView,
    src: Seq<char>,
    path: Seq<char>,
    var: Option<Seq<char>>,
    release: bool,
    cpus: nat,
) -> Result<EnvConfigView, ErrorView> {
    match doc {
        DocumentView::Invalid(m) => Err(ErrorView::ParseError(src, path, m, Some((2usize, 2usize)))),
        DocumentView::Value(t) => Err(
            ErrorView::ParseError(
                src,
                path,
                "expected a table, found "@ + t,
                Some((1usize, 1usize)),
            ),
        ),
        DocumentView::Table(entries) => match defaults_spec(Some(path), var, release, cpus) {
            Err(e) => Err(e),
            Ok(c) => match first_misfit(entries) {
                Some(entry) => Err(
                    ErrorView::BadType(entry.0, "a table"@, entry.1, Some(path)),
                ),
                None => Ok(c),
            },
        },
    }
}

impl EnvConfig {
    /// The path at which the configuration file would sit for directory `dir`.
    pub fn candidate(dir: &str) -> (r: String)
        ensures
            r@ == path_join(dir@, CONFIG_FILENAME@),
    {
        proof {
            reveal_strlit("config/env_config.toml");
        }
        join_path(dir, CONFIG_FILENAME)
    }

    /// Decides one step of the upward search, given whether the candidate
    /// file of `dir` exists: a file there is taken at once; otherwise the
    /// search moves to the parent directory, and stops at the top.
    pub fn find(dir: &str, present: bool) -> (r: Search)
        ensures
            r@ == step_spec(dir@, present),
    {
        if present {
            return Search::Found(EnvConfig::candidate(dir));
        }
        match parent_of(dir) {
            Some(up) => Search::Next(up),
            None => Search::NotFound,
        }
    }

    /// The configuration of one environment.
    pub fn get(&self, env: Environment) -> (r: &BasicConfig)
        ensures
            r@ == self@.config(env),
    {
        match env {
            Environment::Development => &self.development,
            Environment::Staging => &self.staging,
            Environment::Production => &self.production,
        }
    }

    /// The configuration of one environment, for changing it in place.
    pub fn get_mut(&mut self, env: Environment) -> (r: &mut BasicConfig)
        ensures
            r@ == old(self)@.config(env),
            final(self)@ == old(self)@.with_config(env, final(r)@),
    {
        match env {
            Environment::Development => &mut self.development,
            Environment::Staging => &mut self.staging,
            Environment::Production => &mut self.production,
        }
    }

    /// The defaults of every environment, read from the file at `filename` if
    /// one is given, with the active environment resolved from the value of
    /// the environment variable and the build mode, on a machine with `cpus`
    /// logical CPUs.
    pub fn defaults_from(
        filename: Option<&str>,
        var: Option<&str>,
        release: bool,
        cpus: usize,
    ) -> (r: Result<EnvConfig, ConfigError>)
        ensures
            env_result_view(r) == defaults_spec(
                opt_str_view(filename),
                opt_str_view(var),
                release,
                cpus as nat,
            ),
    {
        let (development, staging, production) = match filename {
            Some(path) => {
                let d = BasicConfig::from(Environment::Development, path, cpus);
                let d = match d {
                    Ok(c) => c,
                    Err(e) => return Err(e),
                };
                let s = match BasicConfig::from(Environment::Staging, path, cpus) {
                    Ok(c) => c,
                    Err(e) => return Err(e),
                };
                let p = match BasicConfig::from(Environment::Production, path, cpus) {
                    Ok(c) => c,
                    Err(e) => return Err(e),
                };
                (d, s, p)
            },
            None => (
                BasicConfig::default(Environment::Development, cpus),
                BasicConfig::default(Environment::Staging, cpus),
                BasicConfig::default(Environment::Production, cpus),
            ),
        };
        let active_env = match Environment::active(var, release) {
            Ok(e) => e,
            Err(e) => return Err(e),
        };
        Ok(EnvConfig { active_env, development, staging, production })
    }

    /// The defaults of every environment on this machine; see `defaults_from`.
    pub fn active_default_from(filename: Option<&str>, var: Option<&str>, release: bool) -> (r:
        Result<EnvConfig, ConfigError>)
        ensures
            exists|cpus: nat|
                cpus >= 1 && env_result_view(r) == defaults_spec(
                    opt_str_view(filename),
                    opt_str_view(var),
                    release,
                    cpus,
                ),
    {
        let cpus = logical_cpus();
        EnvConfig::defaults_from(filename, var, release, cpus)
    }

    /// The built-in configuration of the active environment.
    pub fn active(var: Option<&str>, release: bool) -> (r: Result<BasicConfig, ConfigError>)
        ensures
            match active_spec(opt_str_view(var), release) {
                Ok(env) => exists|cpus: nat|
                    cpus >= 1 && config_result_view(r) == Ok::<BasicConfigView, ErrorView>(
                        default_spec(env, cpus),
                    ),
                Err(e) => config_result_view(r) == Err::<BasicConfigView, ErrorView>(e),
            },
    {
        match Environment::active(var, release) {
            Ok(env) => Ok(BasicConfig::new(env)),
            Err(e) => Err(e),
        }
    }

    /// Loads a document read from the file at `filename`: the text must be a
    /// TOML table, the defaults are built for that file, and every top-level
    /// value must be a table. Sections are checked for their shape only: the
    /// values inside them are not applied over the defaults, so a document
    /// that loads yields the defaults unchanged.
    pub fn check_document(
        doc: &Document,
        src: String,
        filename: &str,
        var: Option<&str>,
        release: bool,
        cpus: usize,
    ) -> (r: Result<EnvConfig, ConfigError>)
        ensures
            env_result_view(r) == parse_spec(
                doc@,
                src@,
                filename@,
                opt_str_view(var),
                release,
                cpus as nat,
            ),
    {
        match doc {
            Document::Invalid(m) => Err(
                ConfigError::ParseError(src, filename.to_string(), m.clone(), Some((2, 2))),
            ),
            Document::Value(t) => {
                let mut msg = String::from_str("expected a table, found ");
                msg.append(t.as_str());
                Err(ConfigError::ParseError(src, filename.to_string(), msg, Some((1, 1))))
            },
            Document::Table(entries) => {
                let config = match EnvConfig::defaults_from(Some(filename), var, release, cpus) {
                    Ok(c) => c,
                    Err(e) => return Err(e),
                };
                let ghost all = match doc@ {
                    DocumentView::Table(s) => s,
                    _ => Seq::empty(),
                };
                assert(opt_str_view(Some(filename)) == Some(filename@));
                let n = entries.len();
                assert(all.subrange(0, n as int) =~= all);
                let mut i: usize = 0;
                while i < n
                    invariant
                        n == entries@.len(),
                        doc@ == DocumentView::Table(all),
                        defaults_spec(Some(filename@), opt_str_view(var), release, cpus as nat)
                            == Ok::<EnvConfigView, ErrorView>(config@),
                        all.len() == n,
                        forall|k: int| 0 <= k < n ==> all[k] == (entries@[k].0@, entries@[k].1@),
                        i <= n,
                        first_misfit(all) == first_misfit(all.subrange(i as int, n as int)),
                    decreases n - i,
                {
                    let ghost rest = all.subrange(i as int, n as int);
                    assert(rest[0] == (entries@[i as int].0@, entries@[i as int].1@));
                    if !same_text(entries[i].1.as_str(), "table") {
                        assert(first_misfit(rest) == Some(rest[0]));
                        let key = entries[i].0.clone();
                        let found = entries[i].1.clone();
                        let file = filename.to_string();
                        let expected = String::from_str("a table");
                        return Err(ConfigError::BadType(key, expected, found, Some(file)));
                    }
                    assert(rest.drop_first() =~= all.subrange(i + 1, n as int));
                    i = i + 1;
                }
                assert(all.subrange(n as int, n as int).len() == 0);
                Ok(config)
            },
        }
    }

    /// Parses `src`, the text of the file at `filename`, and loads it; see
    /// `check_document`.
    pub fn parse(src: String, filename: &str, var: Option<&str>, release: bool) -> (r: Result<
        EnvConfig,
        ConfigError,
    >)
        ensures
            exists|cpus: nat|
                cpus >= 1 && env_result_view(r) == parse_spec(
                    toml_document(src@),
                    src@,
                    filename@,
                    opt_str_view(var),
                    release,
                    cpus,
                ),
    {
        let doc = read_document(src.as_str());
        let cpus = logical_cpus();
        EnvConfig::check_document(&doc, src, filename, var, release, cpus)
    }
}

/// Building the defaults without a file never fails once the environment
/// resolves, and yields one configuration for each of the three environments.
pub proof fn lemma_defaults_complete(var: Option<Seq<char>>, release: bool, cpus: nat)
    requires
        active_spec(var, release) is Ok,
    ensures
        defaults_spec(None, var, release, cpus) is Ok,
        match defaults_spec(None, var, release, cpus) {
            Ok(c) => c.configs().dom() =~= set![
                Environment::Development,
                Environment::Staging,
                Environment::Production,
            ] && c.configs().dom().len() == 3 && forall|e: Environment|
                #[trigger] c.configs()[e] == default_spec(e, cpus),
            Err(_) => false,
        },
{
    let c = defaults_spec(None, var, release, cpus)->Ok_0;
    let s = set![Environment::Development, Environment::Staging, Environment::Production];
    assert(c.configs().dom() =~= s);
    assert(s.len() == 3) by {
        let s0 = Set::<Environment>::empty();
        let s1 = s0.insert(Environment::Development);
        let s2 = s1.insert(Environment::Staging);
        assert(!s1.contains(Environment::Staging));
        assert(!s2.contains(Environment::Production));
        assert(s =~= s2.insert(Environment::Production));
    }
    assert forall|e: Environment| #[trigger] c.configs()[e] == default_spec(e, cpus) by {
        assert(c.configs().dom().contains(e));
    }
}

/// A text that is not TOML fails with the (2, 2) marker; a document that is
/// not a table fails with the (1, 1) marker; a table with a top-level value
/// that is not a table fails with `BadType`, once the defaults build.
pub proof fn lemma_parse_failures(
    doc: DocumentView,
    src: Seq<char>,
    path: Seq<char>,
    var: Option<Seq<char>>,
    release: bool,
    cpus: nat,
)
    ensures
        doc is Invalid ==> (parse_spec(doc, src, path, var, release, cpus) matches Err(
            ErrorView::ParseError(_, _, _, Some(at)),
        ) && at == (2usize, 2usize)),
        doc is Value ==> (parse_spec(doc, src, path, var, release, cpus) matches Err(
            ErrorView::ParseError(_, _, _, Some(at)),
        ) && at == (1usize, 1usize)),
        (doc matches DocumentView::Table(entries) && first_misfit(entries) is Some
            && defaults_spec(Some(path), var, release, cpus) is Ok) ==> parse_spec(doc, src, path, var, release, cpus) matches Err(
            ErrorView::BadType(_, _, _, _),
        ),
{
}

/// The configuration file of the first directory of `chain` that holds one.
pub open spec fn first_found(chain: Seq<Seq<char>>, files: Set<Seq<char>>) -> Option<Seq<char>>
    decreases chain.len(),
{
    if chain.len() == 0 {
        None
    } else if files.contains(candidate_of(chain[0])) {
        Some(candidate_of(chain[0]))
    } else {
        first_found(chain.drop_first(), files)
    }
}

proof fn lemma_run_is_first(chain: Seq<Seq<char>>, files: Set<Seq<char>>)
    requires
        is_ancestry(chain),
    ensures
        run_search(chain[0], files, chain.len()) == first_found(chain, files),
    decreases chain.len(),
{
    if !files.contains(candidate_of(chain[0])) && chain.len() > 1 {
        let rest = chain.drop_first();
        assert(path_parent(chain[0]) == Some(chain[1]));
        assert forall|i: int| 0 <= i < rest.len() - 1 implies path_parent(#[trigger] rest[i])
            == Some(rest[i + 1]) by {
            assert(path_parent(chain[i + 1]) == Some(chain[i + 2]));
        }
        assert(rest.last() == chain.last());
        lemma_run_is_first(rest, files);
        assert(rest[0] == chain[1]);
        assert(run_search(chain[0], files, chain.len()) == run_search(
            chain[1],
            files,
            (chain.len() - 1) as nat,
        ));
    } else if !files.contains(candidate_of(chain[0])) {
        assert(chain.last() == chain[0]);
        assert(first_found(chain.drop_first(), files) is None);
    }
}

proof fn lemma_first_found(chain: Seq<Seq<char>>, files: Set<Seq<char>>)
    ensures
        forall|k: int|
            0 <= k < chain.len() && files.contains(candidate_of(chain[k])) && (forall|i: int|
                0 <= i < k ==> !files.contains(#[trigger] candidate_of(chain[i])))
                ==> #[trigger] first_found(chain, files) == Some(candidate_of(chain[k])),
        first_found(chain, files) is None <==> (forall|i: int|
            0 <= i < chain.len() ==> !files.contains(#[trigger] candidate_of(chain[i]))),
    decreases chain.len(),
{
    if chain.len() > 0 {
        let rest = chain.drop_first();
        lemma_first_found(rest, files);
        assert forall|k: int|
            0 <= k < chain.len() && files.contains(candidate_of(chain[k])) && (forall|i: int|
                0 <= i < k ==> !files.contains(#[trigger] candidate_of(chain[i])))
                implies #[trigger] first_found(chain, files) == Some(candidate_of(chain[k])) by {
            if k > 0 {
                assert(!files.contains(candidate_of(chain[0])));
                assert(rest[k - 1] == chain[k]);
                assert forall|i: int| 0 <= i < k - 1 implies !files.contains(
                    #[trigger] candidate_of(rest[i]),
                ) by {
                    assert(rest[i] == chain[i + 1]);
                }
            }
        }
        if first_found(chain, files) is None {
            assert forall|i: int| 0 <= i < chain.len() implies !files.contains(
                #[trigger] candidate_of(chain[i]),
            ) by {
                if i > 0 {
                    assert(rest[i - 1] == chain[i]);
                }
            }
        } else if !files.contains(candidate_of(chain[0])) {
            let i = choose|i: int| 0 <= i < rest.len() && files.contains(#[trigger] candidate_of(rest[i]));
            assert(chain[i + 1] == rest[i]);
        }
    }
}

/// The search from a directory returns the configuration file of the nearest
/// directory among it and its ancestors that holds one, and finds nothing
/// exactly when none of them does.
pub proof fn lemma_nearest_wins(chain: Seq<Seq<char>>, files: Set<Seq<char>>)
    requires
        is_ancestry(chain),
    ensures
        forall|k: int|
            0 <= k < chain.len() && files.contains(candidate_of(chain[k])) && (forall|i: int|
                0 <= i < k ==> !files.contains(#[trigger] candidate_of(chain[i])))
                ==> #[trigger] run_search(chain[0], files, chain.len()) == Some(candidate_of(chain[k])),
        run_search(chain[0], files, chain.len()) is None <==> (forall|i: int|
            0 <= i < chain.len() ==> !files.contains(#[trigger] candidate_of(chain[i]))),
{
    lemma_run_is_first(chain, files);
    lemma_first_found(chain, files);
}

/// A document that is a table of tables loads whenever its file lies in a
/// directory and the environment resolves: the active environment is the
/// resolved one, and every environment keeps its defaults for that file,
/// as `BasicConfig::from` builds them.
pub proof fn lemma_table_of_tables_loads(
    entries: Seq<(Seq<char>, Seq<char>)>,
    src: Seq<char>,
    path: Seq<char>,
    var: Option<Seq<char>>,
    release: bool,
    cpus: nat,
)
    requires
        forall|i: int| 0 <= i < entries.len() ==> (#[trigger] entries[i]).1 == "table"@,
        rooted(path),
        active_spec(var, release) is Ok,
    ensures
        parse_spec(DocumentView::Table(entries), src, path, var, release, cpus) matches Ok(c) && (
        c.active_env == active_spec(var, release)->Ok_0 && forall|e: Environment|
            #[trigger] c.config(e) == config_for(e, Some(path), cpus) && from_spec(e, path, cpus)
                == Ok::<BasicConfigView, ErrorView>(c.config(e))),
    decreases entries.len(),
{
    if entries.len() > 0 {
        lemma_table_of_tables_loads(entries.drop_first(), src, path, var, release, cpus);
        assert(entries[0].1 == "table"@);
        assert forall|i: int| 0 <= i < entries.drop_first().len() implies (
        #[trigger] entries.drop_first()[i]).1 == "table"@ by {
            assert(entries.drop_first()[i] == entries[i + 1]);
        }
    }
}

} // verus!
