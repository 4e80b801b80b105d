use vstd::prelude::*;

use crate::error::{ConfigError, ErrorView};
use crate::text::same_text;

verus! {

/// The process variable that names the active environment.
pub const CONFIG_ENV: &'static str = "POEM_ENV";

/// The runtime mode that selects a set of defaults.
#[derive(Hash, PartialEq, Eq, Structural, Debug, Clone, Copy)]
pub enum Environment {
    Development,
    Staging,
    Production,
}

/// The environment that an accepted name stands for; none for any other text.
/// Names are matched exactly, letter case included.
pub open spec fn alias_env(s: Seq<char>) -> Option<Environment> {
    if s == "d"@ || s == "dev"@ || s == "devel"@ || s == "development"@ {
        Some(Environment::Development)
    } else if s == "s"@ || s == "stage"@ || s == "staging"@ {
        Some(Environment::Staging)
    } else if s == "p"@ || s == "prod"@ || s == "production"@ {
        Some(Environment::Production)
    } else {
        None
    }
}

/// The canonical name of an environment.
pub open spec fn env_name(e: Environment) -> Seq<char> {
    match e {
        Environment::Development => "development"@,
        Environment::Staging => "staging"@,
        Environment::Production => "production"@,
    }
}

/// The environment in force when the variable is unset: production in a
/// release build, development otherwise.
pub open spec fn fallback_env(release: bool) -> Environment {
    if release {
        Environment::Production
    } else {
        Environment::Development
    }
}

/// The environment selected by the variable's value, if it selects one.
pub open spec fn resolve_env(var: Option<Seq<char>>, release: bool) -> Option<Environment> {
    match var {
        None => Some(fallback_env(release)),
        Some(s) => alias_env(s),
    }
}

/// The outcome of resolving the active environment.
pub open spec fn active_spec(var: Option<Seq<char>>, release: bool) -> Result<Environment, ErrorView> {
    match var {
        None => Ok(fallback_env(release)),
        Some(s) => match alias_env(s) {
            Some(e) => Ok(e),
            None => Err(ErrorView::BadEnv(s)),
        },
    }
}

pub open spec fn opt_str_view(o: Option<&str>) -> Option<Seq<char>> {
    match o {
        Some(s) => Some(s@),
        None => None,
    }
}

impl Environment {
    /// Resolves the active environment from the value of `CONFIG_ENV`
    /// (`None` when it is unset) and the build mode.
    pub fn active(var: Option<&str>, release: bool) -> (r: Result<Environment, ConfigError>)
        ensures
            match r {
                Ok(e) => active_spec(opt_str_view(var), release) == Ok::<Environment, ErrorView>(e),
                Err(e) => active_spec(opt_str_view(var), release) == Err::<Environment, ErrorView>(e@),
            },
    {
        match var {
            None => {
                if release {
                    Ok(Environment::Production)
                } else {
                    Ok(Environment::Development)
                }
            },
            Some(s) => match Environment::from_alias(s) {
                Some(e) => Ok(e),
                None => Err(ConfigError::BadEnv(s.to_string())),
            },
        }
    }

    /// Reads one of the accepted names of an environment.
    pub fn from_alias(s: &str) -> (r: Option<Environment>)
        ensures
            r == alias_env(s@),
    {
        if same_text(s, "d") || same_text(s, "dev") || same_text(s, "devel") || same_text(
            s,
            "development",
        ) {
            Some(Environment::Development)
        } else if same_text(s, "s") || same_text(s, "stage") || same_text(s, "staging") {
            Some(Environment::Staging)
        } else if same_text(s, "p") || same_text(s, "prod") || same_text(s, "production") {
            Some(Environment::Production)
        } else {
            None
        }
    }

    /// The canonical name of this environment.
    pub fn name(self) -> (r: &'static str)
        ensures
            r@ == env_name(self),
    {
        match self {
            Environment::Development => "development",
            Environment::Staging => "staging",
            Environment::Production => "production",
        }
    }

    #[inline]
    pub fn is_dev(self) -> (r: bool)
        ensures
            r == (self == Environment::Development),
    {
        self == Environment::Development
    }

    #[inline]
    pub fn is_stage(self) -> (r: bool)
        ensures
            r == (self == Environment::Staging),
    {
        self == Environment::Staging
    }

    #[inline]
    pub fn is_prod(self) -> (r: bool)
        ensures
            r == (self == Environment::Production),
    {
        self == Environment::Production
    }
}

impl core::str::FromStr for Environment {
    type Err = ();

    fn from_str(s: &str) -> (r: Result<Environment, ()>)
        ensures
            r == match alias_env(s@) {
                Some(e) => Ok::<Environment, ()>(e),
                None => Err::<Environment, ()>(()),
            },
    {
        match Environment::from_alias(s) {
            Some(e) => Ok(e),
            None => Err(()),
        }
    }
}

/// Every environment's canonical name reads back as that environment.
pub proof fn lemma_name_round_trip(e: Environment)
    ensures
        alias_env(env_name(e)) == Some(e),
{
    reveal_strlit("d");
    reveal_strlit("dev");
    reveal_strlit("devel");
    reveal_strlit("development");
    reveal_strlit("s");
    reveal_strlit("stage");
    reveal_strlit("staging");
    reveal_strlit("p");
    reveal_strlit("prod");
    reveal_strlit("production");
    match e {
        Environment::Development => {},
        Environment::Staging => {
            assert("staging"@[0] != "d"@[0]);
            assert("staging"@ != "development"@);
        },
        Environment::Production => {
            assert("production"@[0] != "d"@[0]);
            assert("production"@[0] != "s"@[0]);
            assert("production"@ != "development"@);
            assert("production"@ != "stage"@);
            assert("production"@ != "staging"@);
        },
    }
}

} // verus!
