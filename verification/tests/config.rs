use code_mmunity_server::config::{
    listen_port, parse_port, ConfigError, DbConfig, Environment, Variable, DEFAULT_PORT,
    ROOT_CERT_PATH,
};

fn full() -> Environment {
    Environment {
        use_ssl: None,
        db_server: Some("db.example.org".to_string()),
        db_port: Some("3306".to_string()),
        db_user: Some("app".to_string()),
        db_passwd: Some("swordfish".to_string()),
        db_database: Some("community".to_string()),
    }
}

#[test]
fn listen_port_defaults_to_8080() {
    assert_eq!(listen_port(None), Ok(8080));
    assert_eq!(DEFAULT_PORT, 8080);
}

#[test]
fn listen_port_takes_the_number_given() {
    assert_eq!(listen_port(Some("3000".to_string())), Ok(3000));
    assert_eq!(listen_port(Some("0".to_string())), Ok(0));
    assert_eq!(listen_port(Some("65535".to_string())), Ok(65535));
    assert_eq!(listen_port(Some("+8081".to_string())), Ok(8081));
}

#[test]
fn listen_port_refuses_what_is_no_port() {
    let malformed = Err(ConfigError::Malformed(Variable::AppPort));
    assert_eq!(listen_port(Some("".to_string())), malformed);
    assert_eq!(listen_port(Some("65536".to_string())), malformed);
    assert_eq!(listen_port(Some("http".to_string())), malformed);
    assert_eq!(listen_port(Some("-1".to_string())), malformed);
    assert_eq!(listen_port(Some("80 ".to_string())), malformed);
    assert_eq!(listen_port(Some("+".to_string())), malformed);
    assert_eq!(listen_port(Some("++1".to_string())), malformed);
}

#[test]
fn parse_port_agrees_with_the_standard_parser() {
    let texts = [
        "", "0", "1", "80", "8080", "65535", "65536", "99999", "+1", "+65535", "+65536", "-1",
        "+", "++1", "1+", " 1", "1 ", "08080", "+08080", "0x50", "8e3", "１２", "18446744073709551616",
    ];
    for text in texts {
        assert_eq!(parse_port(text), text.parse::<u16>().ok(), "{:?}", text);
    }
}

#[test]
fn plain_connection_without_use_ssl() {
    let config = DbConfig::from_environment(full());
    assert_eq!(
        config,
        Ok(DbConfig {
            host: "db.example.org".to_string(),
            port: 3306,
            user: "app".to_string(),
            password: "swordfish".to_string(),
            database: "community".to_string(),
            root_cert_path: None,
        })
    );
}

#[test]
fn encrypted_connection_only_for_true() {
    let mut environment = full();
    environment.use_ssl = Some("true".to_string());
    let config = DbConfig::from_environment(environment).unwrap();
    assert_eq!(config.root_cert_path, Some("./cert/DigiCertGlobalRootCA.crt.pem".to_string()));
    assert_eq!(ROOT_CERT_PATH, "./cert/DigiCertGlobalRootCA.crt.pem");
    for other in ["false", "TRUE", "True", "1", "", "true "] {
        let mut environment = full();
        environment.use_ssl = Some(other.to_string());
        assert_eq!(DbConfig::from_environment(environment).unwrap().root_cert_path, None);
    }
}

#[test]
fn each_missing_variable_is_named() {
    let mut environment = full();
    environment.db_server = None;
    assert_eq!(DbConfig::from_environment(environment), Err(ConfigError::Missing(Variable::DbServer)));
    let mut environment = full();
    environment.db_port = None;
    assert_eq!(DbConfig::from_environment(environment), Err(ConfigError::Missing(Variable::DbPort)));
    let mut environment = full();
    environment.db_user = None;
    assert_eq!(DbConfig::from_environment(environment), Err(ConfigError::Missing(Variable::DbUser)));
    let mut environment = full();
    environment.db_passwd = None;
    assert_eq!(DbConfig::from_environment(environment), Err(ConfigError::Missing(Variable::DbPasswd)));
    let mut environment = full();
    environment.db_database = None;
    assert_eq!(
        DbConfig::from_environment(environment),
        Err(ConfigError::Missing(Variable::DbDatabase))
    );
}

#[test]
fn malformed_store_port_is_an_error() {
    let mut environment = full();
    environment.db_port = Some("mysql".to_string());
    assert_eq!(DbConfig::from_environment(environment), Err(ConfigError::Malformed(Variable::DbPort)));
    let mut environment = full();
    environment.db_port = Some("70000".to_string());
    assert_eq!(DbConfig::from_environment(environment), Err(ConfigError::Malformed(Variable::DbPort)));
}

#[test]
fn the_first_defect_is_reported() {
    let environment = Environment {
        use_ssl: Some("true".to_string()),
        db_server: None,
        db_port: Some("x".to_string()),
        db_user: None,
        db_passwd: None,
        db_database: None,
    };
    assert_eq!(DbConfig::from_environment(environment), Err(ConfigError::Missing(Variable::DbServer)));
    let environment = Environment {
        use_ssl: None,
        db_server: Some("h".to_string()),
        db_port: Some("x".to_string()),
        db_user: None,
        db_passwd: None,
        db_database: None,
    };
    assert_eq!(DbConfig::from_environment(environment), Err(ConfigError::Malformed(Variable::DbPort)));
    let environment = Environment {
        use_ssl: None,
        db_server: Some("h".to_string()),
        db_port: Some("1".to_string()),
        db_user: Some("u".to_string()),
        db_passwd: None,
        db_database: None,
    };
    assert_eq!(DbConfig::from_environment(environment), Err(ConfigError::Missing(Variable::DbPasswd)));
}

#[test]
fn empty_values_count_as_set() {
    let environment = Environment {
        use_ssl: None,
        db_server: Some("".to_string()),
        db_port: Some("0".to_string()),
        db_user: Some("".to_string()),
        db_passwd: Some("".to_string()),
        db_database: Some("".to_string()),
    };
    let config = DbConfig::from_environment(environment).unwrap();
    assert_eq!(config.host, "");
    assert_eq!(config.port, 0);
}

#[test]
fn variables_have_their_names() {
    assert_eq!(Variable::DbServer.name(), "DB_SERVER");
    assert_eq!(Variable::DbPort.name(), "DB_PORT");
    assert_eq!(Variable::DbUser.name(), "DB_USER");
    assert_eq!(Variable::DbPasswd.name(), "DB_PASSWD");
    assert_eq!(Variable::DbDatabase.name(), "DB_DATABASE");
    assert_eq!(Variable::AppPort.name(), "APP_PORT");
}

#[test]
fn errors_have_their_words() {
    assert_eq!(ConfigError::Missing(Variable::DbServer).message(), "DB_SERVER가 설정되지 않음");
    assert_eq!(ConfigError::Missing(Variable::DbDatabase).message(), "DB_DATABASE가 설정되지 않음");
    assert_eq!(ConfigError::Malformed(Variable::DbPort).message(), "DB_PORT가 올바른 형식이 아님");
    assert_eq!(ConfigError::Malformed(Variable::AppPort).message(), "APP_PORT가 숫자가 아닙니다.");
}
