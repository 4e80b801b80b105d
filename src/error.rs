use vstd::prelude::*;

verus! {

/// Why loading the configuration failed.
#[derive(Debug)]
pub enum ConfigError {
    /// No configuration file was found walking up from the working directory.
    NotFound,
    /// The configuration file could not be opened or read.
    IoError,
    /// A configuration path has no parent directory: the path and a message.
    BadFilePath(String, String),
    /// The environment variable holds an unknown value.
    BadEnv(String),
    /// An `[environment]` section is not a known environment: its name and the file.
    BadEntry(String, String),
    /// A key holds a value of the wrong type: the key, the expected and the
    /// actual type, and the file.
    BadType(String, String, String, Option<String>),
    /// The file is not a TOML table: the source, the file, a message and a
    /// (line, column) marker.
    ParseError(String, String, String, Option<(usize, usize)>),
}

/// The mathematical model of a `ConfigError`.
pub enum ErrorView {
    NotFound,
    IoError,
    BadFilePath(Seq<char>, Seq<char>),
    BadEnv(Seq<char>),
    BadEntry(Seq<char>, Seq<char>),
    BadType(Seq<char>, Seq<char>, Seq<char>, Option<Seq<char>>),
    ParseError(Seq<char>, Seq<char>, Seq<char>, Option<(usize, usize)>),
}

pub open spec fn opt_string_view(o: Option<String>) -> Option<Seq<char>> {
    match o {
        Some(s) => Some(s@),
        None => None,
    }
}

impl View for ConfigError {
    type V = ErrorView;

    open spec fn view(&self) -> ErrorView {
        match self {
            ConfigError::NotFound => ErrorView::NotFound,
            ConfigError::IoError => ErrorView::IoError,
            ConfigError::BadFilePath(p, m) => ErrorView::BadFilePath(p@, m@),
            ConfigError::BadEnv(s) => ErrorView::BadEnv(s@),
            ConfigError::BadEntry(e, p) => ErrorView::BadEntry(e@, p@),
            ConfigError::BadType(k, e, a, p) => ErrorView::BadType(k@, e@, a@, opt_string_view(*p)),
            ConfigError::ParseError(s, p, m, at) => ErrorView::ParseError(s@, p@, m@, *at),
        }
    }
}

/// A one-line summary of each kind of error.
pub open spec fn description_spec(e: ErrorView) -> Seq<char> {
    match e {
        ErrorView::NotFound => "config file was not found"@,
        ErrorView::IoError => "there was an I/O error while reading the config file"@,
        ErrorView::BadFilePath(..) => "the config file path is invalid"@,
        ErrorView::BadEnv(..) => "the environment specified in `POEM_ENV` is invalid"@,
        ErrorView::BadEntry(..) => "an environment specified as `[environment]` is invalid"@,
        ErrorView::BadType(..) => "a key was specified with a value of the wrong type"@,
        ErrorView::ParseError(..) => "the config file contains invalid TOML"@,
    }
}

/// The message shown to a user for an error.
pub open spec fn message_spec(e: ErrorView) -> Seq<char> {
    match e {
        ErrorView::NotFound => "config file was not found"@,
        ErrorView::IoError => "I/O error while reading the config file"@,
        ErrorView::BadFilePath(p, _) => "\""@ + p + "\" is not a valid config path"@,
        ErrorView::BadEnv(s) => "\""@ + s + "\" is not a valid `POEM_ENV` value"@,
        ErrorView::BadEntry(s, _) => "\""@ + s + "\" is not a valid `[environment]` entry"@,
        ErrorView::BadType(n, x, a, _) => "type mismatch for '"@ + n + "'. expected "@ + x
            + ", found "@ + a,
        ErrorView::ParseError(..) => "the config file contains invalid TOML"@,
    }
}

fn quoted(s: &String, tail: &str) -> (r: String)
    ensures
        r@ == "\""@ + s@ + tail@,
{
    let mut r = String::from_str("\"");
    r.append(s.as_str());
    r.append(tail);
    r
}

impl ConfigError {
    /// A one-line summary of the kind of this error.
    pub fn description(&self) -> (r: &'static str)
        ensures
            r@ == description_spec(self@),
    {
        match self {
            ConfigError::NotFound => "config file was not found",
            ConfigError::IoError => "there was an I/O error while reading the config file",
            ConfigError::BadFilePath(..) => "the config file path is invalid",
            ConfigError::BadEnv(..) => "the environment specified in `POEM_ENV` is invalid",
            ConfigError::BadEntry(..) => "an environment specified as `[environment]` is invalid",
            ConfigError::BadType(..) => "a key was specified with a value of the wrong type",
            ConfigError::ParseError(..) => "the config file contains invalid TOML",
        }
    }

    /// The message shown to a user for this error.
    pub fn message(&self) -> (r: String)
        ensures
            r@ == message_spec(self@),
    {
        match self {
            ConfigError::NotFound => String::from_str("config file was not found"),
            ConfigError::IoError => String::from_str("I/O error while reading the config file"),
            ConfigError::BadFilePath(p, _) => quoted(p, "\" is not a valid config path"),
            ConfigError::BadEnv(s) => quoted(s, "\" is not a valid `POEM_ENV` value"),
            ConfigError::BadEntry(s, _) => quoted(s, "\" is not a valid `[environment]` entry"),
            ConfigError::BadType(n, x, a, _) => {
                let mut r = String::from_str("type mismatch for '");
                r.append(n.as_str());
                r.append("'. expected ");
                r.append(x.as_str());
                r.append(", found ");
                r.append(a.as_str());
                r
            },
            ConfigError::ParseError(..) => String::from_str("the config file contains invalid TOML"),
        }
    }
}

} // verus!
