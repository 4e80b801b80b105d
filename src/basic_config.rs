use vstd::prelude::*;

use crate::environment::Environment;
use crate::error::{opt_string_view, ConfigError, ErrorView};
use crate::paths::{parent_of, path_parent};
use vstd::std_specs::cmp::PartialEqSpec;

verus! {

/// The message carried by `BadFilePath`.
pub const UNROOTED: &'static str = "Configuration files must be rooted in a directory";

/// The port that every environment listens on by default.
pub const DEFAULT_PORT: u16 = 8000;

/// A database that the application connects to.
#[derive(Debug, PartialEq)]
pub struct Database {
    pub adapter: String,
    pub db_name: String,
    pub pool: u32,
}

pub struct DatabaseView {
    pub adapter: Seq<char>,
    pub db_name: Seq<char>,
    pub pool: u32,
}

impl View for Database {
    type V = DatabaseView;

    open spec fn view(&self) -> DatabaseView {
        DatabaseView { adapter: self.adapter@, db_name: self.db_name@, pool: self.pool }
    }
}

/// The configuration of one environment.
#[derive(Debug)]
pub struct BasicConfig {
    pub environment: Environment,
    pub address: String,
    pub port: u16,
    pub database: Option<Database>,
    /// How many workers serve requests.
    pub workers: Option<u16>,
    /// The file the configuration was read from.
    pub config_file_path: Option<String>,
    /// The directory that holds the configuration file.
    pub root_path: Option<String>,
}

pub struct BasicConfigView {
    pub environment: Environment,
    pub address: Seq<char>,
    pub port: u16,
    pub database: Option<DatabaseView>,
    pub workers: Option<u16>,
    pub config_file_path: Option<Seq<char>>,
    pub root_path: Option<Seq<char>>,
}

impl View for BasicConfig {
    type V = BasicConfigView;

    open spec fn view(&self) -> BasicConfigView {
        BasicConfigView {
            environment: self.environment,
            address: self.address@,
            port: self.port,
            database: match self.database {
                Some(d) => Some(d@),
                None => None,
            },
            workers: self.workers,
            config_file_path: opt_string_view(self.config_file_path),
            root_path: opt_string_view(self.root_path),
        }
    }
}

/// Twice the number of logical CPUs, kept to 16 bits.
pub open spec fn default_workers(cpus: nat) -> u16 {
    ((2 * cpus) % 65536) as u16
}

/// The address an environment binds to by default: loopback for
/// development, every interface otherwise.
pub open spec fn default_address(env: Environment) -> Seq<char> {
    match env {
        Environment::Development => "localhost"@,
        _ => "0.0.0.0"@,
    }
}

/// The built-in configuration of an environment on a machine with `cpus`
/// logical CPUs.
pub open spec fn default_spec(env: Environment, cpus: nat) -> BasicConfigView {
    BasicConfigView {
        environment: env,
        address: default_address(env),
        port: DEFAULT_PORT,
        database: None,
        workers: Some(default_workers(cpus)),
        config_file_path: None,
        root_path: None,
    }
}

/// A configuration file path lies in a directory: it has a parent, and the
/// parent is not empty.
pub open spec fn rooted(path: Seq<char>) -> bool {
    match path_parent(path) {
        Some(dir) => dir.len() > 0,
        None => false,
    }
}

/// The outcome of building an environment's configuration for a file.
pub open spec fn from_spec(env: Environment, path: Seq<char>, cpus: nat) -> Result<
    BasicConfigView,
    ErrorView,
> {
    if rooted(path) {
        Ok(
            BasicConfigView {
                config_file_path: Some(path),
                root_path: path_parent(path),
                ..default_spec(env, cpus)
            },
        )
    } else {
        Err(ErrorView::BadFilePath(path, UNROOTED@))
    }
}

pub open spec fn config_result_view(r: Result<BasicConfig, ConfigError>) -> Result<
    BasicConfigView,
    ErrorView,
> {
    match r {
        Ok(c) => Ok(c@),
        Err(e) => Err(e@),
    }
}

/// Relies on `num_cpus::get`, the number of logical CPUs that the process may
/// use, which its documentation promises to be at least 1.
#[verifier::external_body]
pub(crate) fn logical_cpus() -> (r: usize)
    ensures
        r >= 1,
{
    num_cpus::get()
}

impl BasicConfig {
    /// The built-in configuration of `env` on this machine.
    pub fn new(env: Environment) -> (r: BasicConfig)
        ensures
            exists|cpus: nat| cpus >= 1 && r@ == default_spec(env, cpus),
    {
        let cpus = logical_cpus();
        BasicConfig::default(env, cpus)
    }

    /// The built-in configuration of `env` on a machine with `cpus` logical CPUs.
    pub fn default(env: Environment, cpus: usize) -> (r: BasicConfig)
        ensures
            r@ == default_spec(env, cpus as nat),
    {
        let workers = ((cpus % 32768) * 2) as u16;
        assert(workers == default_workers(cpus as nat)) by (nonlinear_arith)
            requires
                workers == ((cpus % 32768) * 2) as u16,
        ;
        let address = match env {
            Environment::Development => String::from_str("localhost"),
            _ => String::from_str("0.0.0.0"),
        };
        BasicConfig {
            environment: env,
            address,
            port: DEFAULT_PORT,
            database: None,
            workers: Some(workers),
            config_file_path: None,
            root_path: None,
        }
    }

    /// Records `path` as the configuration's root directory.
    pub fn set_root(&mut self, path: &str)
        ensures
            final(self)@ == (BasicConfigView { root_path: Some(path@), ..old(self)@ }),
    {
        self.root_path = Some(path.to_string());
    }

    /// The configuration of `env` read from the file at `path`, rooted in the
    /// file's directory, on a machine with `cpus` logical CPUs.
    pub fn from(env: Environment, path: &str, cpus: usize) -> (r: Result<BasicConfig, ConfigError>)
        ensures
            config_result_view(r) == from_spec(env, path@, cpus as nat),
    {
        let mut config = BasicConfig::default(env, cpus);
        match parent_of(path) {
            Some(parent) => {
                if parent.as_str().unicode_len() == 0 {
                    return Err(ConfigError::BadFilePath(path.to_string(), UNROOTED.to_string()));
                }
                config.set_root(parent.as_str());
            },
            None => {
                return Err(ConfigError::BadFilePath(path.to_string(), UNROOTED.to_string()));
            },
        }
        config.config_file_path = Some(path.to_string());
        Ok(config)
    }
}

impl PartialEq for BasicConfig {
    fn eq(&self, other: &BasicConfig) -> (r: bool) {
        self.address == other.address && self.port == other.port && match (self.workers, other.workers) {
            (Some(a), Some(b)) => a == b,
            (None, None) => true,
            _ => false,
        }
    }
}

impl vstd::std_specs::cmp::PartialEqSpecImpl for BasicConfig {
    open spec fn obeys_eq_spec() -> bool {
        true
    }

    /// Two configurations are equal when they bind the same address and port
    /// and run as many workers; the environment, database and paths are not
    /// compared.
    open spec fn eq_spec(&self, other: &BasicConfig) -> bool {
        self.address@ == other.address@ && self.port == other.port && self.workers == other.workers
    }
}

/// Defaults are a function of the environment and the CPU count alone;
/// staging and production bind every interface, development only loopback.
pub proof fn lemma_default_addresses(a: BasicConfig, b: BasicConfig, env: Environment, cpus: nat)
    requires
        a@ == default_spec(env, cpus),
        b@ == default_spec(env, cpus),
    ensures
        a@ == b@,
        default_spec(Environment::Staging, cpus).address == "0.0.0.0"@,
        default_spec(Environment::Production, cpus).address == "0.0.0.0"@,
        default_spec(Environment::Development, cpus).address == "localhost"@,
{
}

/// Configurations that agree on address, port and workers are equal,
/// whatever their environments, databases and paths.
pub proof fn lemma_eq_ignores_env_and_paths(a: BasicConfig, b: BasicConfig)
    requires
        a.address@ == b.address@,
        a.port == b.port,
        a.workers == b.workers,
    ensures
        a.eq_spec(&b),
{
}

/// The development defaults differ from the staging defaults: they bind
/// another address.
pub proof fn lemma_dev_differs_from_staging(a: BasicConfig, b: BasicConfig, c1: nat, c2: nat)
    requires
        a@ == default_spec(Environment::Development, c1),
        b@ == default_spec(Environment::Staging, c2),
    ensures
        !a.eq_spec(&b),
{
    reveal_strlit("localhost");
    reveal_strlit("0.0.0.0");
    assert("localhost"@.len() != "0.0.0.0"@.len());
}

} // verus!
