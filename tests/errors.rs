use env_config::ConfigError;

#[test]
fn descriptions() {
    assert_eq!(ConfigError::NotFound.description(), "config file was not found");
    assert_eq!(
        ConfigError::IoError.description(),
        "there was an I/O error while reading the config file"
    );
    assert_eq!(
        ConfigError::ParseError(String::new(), String::new(), String::new(), None).description(),
        "the config file contains invalid TOML"
    );
}

#[test]
fn messages() {
    assert_eq!(ConfigError::NotFound.message(), "config file was not found");
    assert_eq!(ConfigError::IoError.message(), "I/O error while reading the config file");
    assert_eq!(
        ConfigError::BadFilePath("/".to_string(), "m".to_string()).message(),
        "\"/\" is not a valid config path"
    );
    assert_eq!(
        ConfigError::BadEnv("qa".to_string()).message(),
        "\"qa\" is not a valid `POEM_ENV` value"
    );
    assert_eq!(
        ConfigError::BadEntry("qa".to_string(), "/f".to_string()).message(),
        "\"qa\" is not a valid `[environment]` entry"
    );
    assert_eq!(
        ConfigError::BadType("port".to_string(), "a table".to_string(), "integer".to_string(), None)
            .message(),
        "type mismatch for 'port'. expected a table, found integer"
    );
}
