use env_config::{BasicConfig, ConfigError, Document, EnvConfig, Environment, Search};

const FILE: &str = "/proj/config/env_config.toml";

fn search(cwd: &str, present: &[&str]) -> Result<String, ConfigError> {
    let mut dir = cwd.to_string();
    loop {
        let here = present.contains(&EnvConfig::candidate(&dir).as_str());
        match EnvConfig::find(&dir, here) {
            Search::Found(p) => return Ok(p),
            Search::Next(d) => dir = d,
            Search::NotFound => return Err(ConfigError::NotFound),
        }
    }
}

#[test]
fn candidate_joins_file_name() {
    assert_eq!(EnvConfig::candidate("/proj"), FILE);
}

#[test]
fn find_takes_present_file() {
    match EnvConfig::find("/proj", true) {
        Search::Found(p) => assert_eq!(p, FILE),
        other => panic!("unexpected {:?}", other),
    }
}

#[test]
fn find_moves_up() {
    match EnvConfig::find("/proj/sub", false) {
        Search::Next(d) => assert_eq!(d, "/proj"),
        other => panic!("unexpected {:?}", other),
    }
    assert!(matches!(EnvConfig::find("/", false), Search::NotFound));
}

#[test]
fn nearest_file_wins() {
    let present = ["/proj/sub/config/env_config.toml", FILE];
    assert_eq!(search("/proj/sub/deep", &present).unwrap(), "/proj/sub/config/env_config.toml");
    assert_eq!(search("/proj/other", &present).unwrap(), FILE);
}

#[test]
fn no_file_up_to_root() {
    assert!(matches!(search("/a/b/c", &[FILE]), Err(ConfigError::NotFound)));
}

#[test]
fn defaults_without_file() {
    let c = EnvConfig::defaults_from(None, None, false, 2).unwrap();
    assert_eq!(c.active_env, Environment::Development);
    for e in [Environment::Development, Environment::Staging, Environment::Production] {
        assert!(*c.get(e) == BasicConfig::default(e, 2));
        assert_eq!(c.get(e).environment, e);
        assert_eq!(c.get(e).root_path, None);
    }
    assert_eq!(c.development.address, "localhost");
    assert_eq!(c.staging.address, "0.0.0.0");
}

#[test]
fn defaults_with_file() {
    let c = EnvConfig::defaults_from(Some(FILE), Some("p"), false, 1).unwrap();
    assert_eq!(c.active_env, Environment::Production);
    for e in [Environment::Development, Environment::Staging, Environment::Production] {
        assert_eq!(c.get(e).root_path.as_deref(), Some("/proj/config"));
        assert_eq!(c.get(e).config_file_path.as_deref(), Some(FILE));
    }
}

#[test]
fn bad_path_comes_before_bad_env() {
    assert!(matches!(
        EnvConfig::defaults_from(Some("/"), Some("nope"), false, 1),
        Err(ConfigError::BadFilePath(..))
    ));
    match EnvConfig::defaults_from(None, Some("nope"), false, 1) {
        Err(ConfigError::BadEnv(s)) => assert_eq!(s, "nope"),
        other => panic!("unexpected {:?}", other),
    }
}

#[test]
fn active_default_from_none_has_every_environment() {
    let c = EnvConfig::active_default_from(None, Some("staging"), true).unwrap();
    assert_eq!(c.active_env, Environment::Staging);
    assert_eq!(c.get(Environment::Development).environment, Environment::Development);
    assert_eq!(c.get(Environment::Staging).environment, Environment::Staging);
    assert_eq!(c.get(Environment::Production).environment, Environment::Production);
}

#[test]
fn active_config() {
    let c = EnvConfig::active(Some("s"), false).unwrap();
    assert_eq!(c.environment, Environment::Staging);
    assert_eq!(c.address, "0.0.0.0");
    assert!(matches!(EnvConfig::active(Some("qa"), false), Err(ConfigError::BadEnv(_))));
}

#[test]
fn document_not_a_table() {
    let doc = Document::Value("array".to_string());
    match EnvConfig::check_document(&doc, "[1]".to_string(), FILE, None, false, 1) {
        Err(ConfigError::ParseError(src, path, msg, at)) => {
            assert_eq!(src, "[1]");
            assert_eq!(path, FILE);
            assert_eq!(msg, "expected a table, found array");
            assert_eq!(at, Some((1, 1)));
        }
        other => panic!("unexpected {:?}", other),
    }
}

#[test]
fn document_invalid() {
    let doc = Document::Invalid("oops".to_string());
    match EnvConfig::check_document(&doc, "=".to_string(), FILE, None, false, 1) {
        Err(ConfigError::ParseError(_, _, msg, at)) => {
            assert_eq!(msg, "oops");
            assert_eq!(at, Some((2, 2)));
        }
        other => panic!("unexpected {:?}", other),
    }
}

#[test]
fn document_with_scalar_section() {
    let doc = Document::Table(vec![
        ("development".to_string(), "table".to_string()),
        ("port".to_string(), "integer".to_string()),
        ("workers".to_string(), "string".to_string()),
    ]);
    match EnvConfig::check_document(&doc, String::new(), FILE, None, false, 1) {
        Err(ConfigError::BadType(key, expected, found, path)) => {
            assert_eq!(key, "port");
            assert_eq!(expected, "a table");
            assert_eq!(found, "integer");
            assert_eq!(path.as_deref(), Some(FILE));
        }
        other => panic!("unexpected {:?}", other),
    }
}

#[test]
fn document_of_tables() {
    let doc = Document::Table(vec![
        ("development".to_string(), "table".to_string()),
        ("staging".to_string(), "table".to_string()),
    ]);
    let c = EnvConfig::check_document(&doc, String::new(), FILE, Some("prod"), false, 3).unwrap();
    assert_eq!(c.active_env, Environment::Production);
    assert_eq!(c.production.workers, Some(6));
    assert_eq!(c.staging.root_path.as_deref(), Some("/proj/config"));
}

#[test]
fn document_table_with_bad_path() {
    let doc = Document::Table(vec![("x".to_string(), "integer".to_string())]);
    assert!(matches!(
        EnvConfig::check_document(&doc, String::new(), "/", None, false, 1),
        Err(ConfigError::BadFilePath(..))
    ));
}

#[test]
fn parse_table_of_tables() {
    let src = "[development]\naddress = \"127.0.0.1\"\n\n[staging]\nport = 9000\n";
    let c = EnvConfig::parse(src.to_string(), FILE, None, false).unwrap();
    assert_eq!(c.active_env, Environment::Development);
    assert_eq!(c.development.address, "localhost");
    assert_eq!(c.staging.port, 8000);
}

#[test]
fn parse_scalar_entry_is_bad_type() {
    match EnvConfig::parse("title = \"x\"\n".to_string(), FILE, None, false) {
        Err(ConfigError::BadType(key, expected, found, path)) => {
            assert_eq!(key, "title");
            assert_eq!(expected, "a table");
            assert_eq!(found, "string");
            assert_eq!(path.as_deref(), Some(FILE));
        }
        other => panic!("unexpected {:?}", other),
    }
}

#[test]
fn parse_invalid_text() {
    match EnvConfig::parse("[development\n".to_string(), FILE, None, false) {
        Err(ConfigError::ParseError(src, _, msg, at)) => {
            assert_eq!(src, "[development\n");
            assert!(!msg.is_empty());
            assert_eq!(at, Some((2, 2)));
        }
        other => panic!("unexpected {:?}", other),
    }
}

#[test]
fn end_to_end_staging() {
    let found = search("/proj/sub", &[FILE]).unwrap();
    assert_eq!(found, FILE);
    let src = "[staging]\naddress = \"10.0.0.1\"\nport = 9000\n";
    let c = EnvConfig::parse(src.to_string(), &found, Some("staging"), false).unwrap();
    assert_eq!(c.active_env, Environment::Staging);
    let s = c.get(Environment::Staging);
    assert_eq!(s.address, "0.0.0.0");
    assert_eq!(s.port, 8000);
    assert_eq!(c.get(Environment::Development).address, "localhost");
    assert_eq!(c.get(Environment::Production).environment, Environment::Production);
}

#[test]
fn get_mut_changes_one_environment() {
    let mut c = EnvConfig::defaults_from(None, None, false, 2).unwrap();
    c.get_mut(Environment::Staging).port = 9000;
    assert_eq!(c.staging.port, 9000);
    assert_eq!(c.development.port, 8000);
    assert_eq!(c.production.port, 8000);
}

#[test]
fn nearer_file_beats_root_file() {
    let present = [FILE, "/config/env_config.toml"];
    assert_eq!(search("/proj/sub", &present).unwrap(), FILE);
    assert_eq!(search("/elsewhere", &present).unwrap(), "/config/env_config.toml");
}

#[test]
fn candidate_adds_separator_only_where_needed() {
    assert_eq!(EnvConfig::candidate("/proj/"), FILE);
    assert_eq!(EnvConfig::candidate(""), "config/env_config.toml");
    assert_eq!(EnvConfig::candidate("/"), "/config/env_config.toml");
}
