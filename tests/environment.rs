use env_config::{ConfigError, Environment};

#[test]
fn development_aliases() {
    for s in ["d", "dev", "devel", "development"] {
        assert_eq!(Environment::from_alias(s), Some(Environment::Development));
        assert_eq!(s.parse::<Environment>(), Ok(Environment::Development));
    }
}

#[test]
fn staging_aliases() {
    for s in ["s", "stage", "staging"] {
        assert_eq!(Environment::from_alias(s), Some(Environment::Staging));
        assert_eq!(s.parse::<Environment>(), Ok(Environment::Staging));
    }
}

#[test]
fn production_aliases() {
    for s in ["p", "prod", "production"] {
        assert_eq!(Environment::from_alias(s), Some(Environment::Production));
        assert_eq!(s.parse::<Environment>(), Ok(Environment::Production));
    }
}

#[test]
fn unknown_names_fail() {
    assert_eq!("x".parse::<Environment>(), Err(()));
    assert_eq!("".parse::<Environment>(), Err(()));
    assert_eq!("producti".parse::<Environment>(), Err(()));
}

#[test]
fn names_are_case_sensitive() {
    assert_eq!("Dev".parse::<Environment>(), Err(()));
    assert_eq!("PROD".parse::<Environment>(), Err(()));
    assert_eq!(Environment::from_alias("Staging"), None);
}

#[test]
fn canonical_names_round_trip() {
    for e in [Environment::Development, Environment::Staging, Environment::Production] {
        assert_eq!(e.name().parse::<Environment>(), Ok(e));
    }
    assert_eq!(Environment::Staging.name(), "staging");
}

#[test]
fn unset_variable_follows_build_mode() {
    assert_eq!(Environment::active(None, false).unwrap(), Environment::Development);
    assert_eq!(Environment::active(None, true).unwrap(), Environment::Production);
}

#[test]
fn variable_selects_environment() {
    assert_eq!(Environment::active(Some("stage"), false).unwrap(), Environment::Staging);
    assert_eq!(Environment::active(Some("d"), true).unwrap(), Environment::Development);
}

#[test]
fn bad_variable_is_bad_env() {
    match Environment::active(Some("Dev"), false) {
        Err(ConfigError::BadEnv(s)) => assert_eq!(s, "Dev"),
        other => panic!("unexpected {:?}", other),
    }
}

#[test]
fn predicates() {
    assert!(Environment::Development.is_dev());
    assert!(!Environment::Development.is_stage());
    assert!(Environment::Staging.is_stage());
    assert!(!Environment::Staging.is_prod());
    assert!(Environment::Production.is_prod());
    assert!(!Environment::Production.is_dev());
}
