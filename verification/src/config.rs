//! Configuration from the environment: how to reach the relational store and
//! on which port to listen. The server reads the variables; this module
//! decides what they mean.

use crate::text::{parse_u64, parse_u64_spec};
use vstd::prelude::*;
use vstd::string::*;

verus! {

/// The port to listen on when the environment names none.
pub const DEFAULT_PORT: u16 = 8080;

/// The root certificate that the store's certificate is checked against when
/// the connection is to be encrypted.
pub const ROOT_CERT_PATH: &'static str = "./cert/DigiCertGlobalRootCA.crt.pem";

/// The name of the variable that says whether the connection to the store is
/// to be encrypted.
pub const USE_SSL: &'static str = "USE_SSL";

/// The value of `USE_SSL` that asks for an encrypted connection.
pub const USE_SSL_ON: &'static str = "true";

/// What is said, after the variable's name, of a variable that is not set.
pub const NOT_SET: &'static str = "가 설정되지 않음";

/// What is said, after the variable's name, of a store port that is no port
/// number.
pub const NOT_A_PORT: &'static str = "가 올바른 형식이 아님";

/// What is said, after the variable's name, of a listen port that is no port
/// number.
pub const NOT_A_NUMBER: &'static str = "가 숫자가 아닙니다.";

/// The variables of the environment that the server cannot do without, or
/// that can be malformed.
#[derive(Clone, Copy, Debug, PartialEq, Eq, Structural)]
pub enum Variable {
    DbServer,
    DbPort,
    DbUser,
    DbPasswd,
    DbDatabase,
    AppPort,
}

impl Variable {
    /// The name of the variable in the environment.
    pub open spec fn name_spec(self) -> Seq<char> {
        match self {
            Variable::DbServer => "DB_SERVER"@,
            Variable::DbPort => "DB_PORT"@,
            Variable::DbUser => "DB_USER"@,
            Variable::DbPasswd => "DB_PASSWD"@,
            Variable::DbDatabase => "DB_DATABASE"@,
            Variable::AppPort => "APP_PORT"@,
        }
    }

    /// The name of the variable in the environment.
    pub fn name(self) -> (r: String)
        ensures
            r@ == self.name_spec(),
    {
        match self {
            Variable::DbServer => String::from_str("DB_SERVER"),
            Variable::DbPort => String::from_str("DB_PORT"),
            Variable::DbUser => String::from_str("DB_USER"),
            Variable::DbPasswd => String::from_str("DB_PASSWD"),
            Variable::DbDatabase => String::from_str("DB_DATABASE"),
            Variable::AppPort => String::from_str("APP_PORT"),
        }
    }
}

/// Why the environment does not make a configuration.
#[derive(Clone, Copy, Debug, PartialEq, Eq, Structural)]
pub enum ConfigError {
    /// A variable that is needed is not set.
    Missing(Variable),
    /// A variable is set to what is no port number.
    Malformed(Variable),
}

impl ConfigError {
    /// The words for the error: the variable's name and what is wrong with it.
    pub open spec fn message_spec(self) -> Seq<char> {
        match self {
            ConfigError::Missing(variable) => variable.name_spec() + NOT_SET@,
            ConfigError::Malformed(Variable::AppPort) => Variable::AppPort.name_spec()
                + NOT_A_NUMBER@,
            ConfigError::Malformed(variable) => variable.name_spec() + NOT_A_PORT@,
        }
    }

    /// The words for the error: the variable's name and what is wrong with it.
    pub fn message(self) -> (r: String)
        ensures
            r@ == self.message_spec(),
    {
        match self {
            ConfigError::Missing(variable) => variable.name().concat(NOT_SET),
            ConfigError::Malformed(Variable::AppPort) => Variable::AppPort.name().concat(
                NOT_A_NUMBER,
            ),
            ConfigError::Malformed(variable) => variable.name().concat(NOT_A_PORT),
        }
    }
}

/// The port number that `text` writes: decimal digits, with or without a
/// plus sign before them, of a value up to 65535. None for any other text.
pub open spec fn parse_port_spec(text: Seq<char>) -> Option<u16> {
    let digits = if text.len() > 0 && text[0] == '+' {
        text.subrange(1, text.len() as int)
    } else {
        text
    };
    match parse_u64_spec(digits) {
        Some(n) => if n <= u16::MAX {
            Some(n as u16)
        } else {
            None
        },
        None => None,
    }
}

/// Reads a port number: decimal digits, with or without a plus sign before
/// them, of a value up to 65535. `None` for any other text.
pub fn parse_port(text: &str) -> (r: Option<u16>)
    ensures
        r == parse_port_spec(text@),
{
    let len: usize = text.unicode_len();
    let digits = if len > 0 && text.get_char(0) == '+' {
        text.substring_char(1, len)
    } else {
        text
    };
    match parse_u64(digits) {
        Some(n) => if n <= 65535 {
            Some(n as u16)
        } else {
            None
        },
        None => None,
    }
}

/// The port to listen on, given what `APP_PORT` holds: `DEFAULT_PORT` when
/// the variable is not set, its value when it is a port number, and an error
/// when it is anything else.
pub open spec fn listen_port_spec(app_port: Option<Seq<char>>) -> Result<u16, ConfigError> {
    match app_port {
        Some(text) => match parse_port_spec(text) {
            Some(port) => Ok(port),
            None => Err(ConfigError::Malformed(Variable::AppPort)),
        },
        None => Ok(DEFAULT_PORT),
    }
}

/// The port to listen on, given what `APP_PORT` holds: `DEFAULT_PORT` when
/// the variable is not set, its value when it is a port number, and an error
/// when it is anything else.
pub fn listen_port(app_port: Option<String>) -> (r: Result<u16, ConfigError>)
    ensures
        r == listen_port_spec(app_port.deep_view()),
{
    match app_port {
        Some(text) => match parse_port(text.as_str()) {
            Some(port) => Ok(port),
            None => Err(ConfigError::Malformed(Variable::AppPort)),
        },
        None => Ok(DEFAULT_PORT),
    }
}

/// What the environment holds for the connection to the store; `None` for a
/// variable that is not set.
#[derive(Debug, PartialEq, Eq)]
pub struct Environment {
    pub use_ssl: Option<String>,
    pub db_server: Option<String>,
    pub db_port: Option<String>,
    pub db_user: Option<String>,
    pub db_passwd: Option<String>,
    pub db_database: Option<String>,
}

/// The mathematical value of an [`Environment`].
pub struct EnvironmentView {
    pub use_ssl: Option<Seq<char>>,
    pub db_server: Option<Seq<char>>,
    pub db_port: Option<Seq<char>>,
    pub db_user: Option<Seq<char>>,
    pub db_passwd: Option<Seq<char>>,
    pub db_database: Option<Seq<char>>,
}

impl View for Environment {
    type V = EnvironmentView;

    open spec fn view(&self) -> EnvironmentView {
        EnvironmentView {
            use_ssl: self.use_ssl.deep_view(),
            db_server: self.db_server.deep_view(),
            db_port: self.db_port.deep_view(),
            db_user: self.db_user.deep_view(),
            db_passwd: self.db_passwd.deep_view(),
            db_database: self.db_database.deep_view(),
        }
    }
}

/// How to reach the store.
#[derive(Debug, PartialEq, Eq)]
pub struct DbConfig {
    /// The address or name of the host.
    pub host: String,
    /// The TCP port.
    pub port: u16,
    /// The user to log in as.
    pub user: String,
    /// The user's password.
    pub password: String,
    /// The database to use.
    pub database: String,
    /// Where the root certificate lies when the connection is to be
    /// encrypted; `None` for a plain connection.
    pub root_cert_path: Option<String>,
}

/// The mathematical value of a [`DbConfig`].
pub struct DbConfigView {
    pub host: Seq<char>,
    pub port: u16,
    pub user: Seq<char>,
    pub password: Seq<char>,
    pub database: Seq<char>,
    pub root_cert_path: Option<Seq<char>>,
}

impl View for DbConfig {
    type V = DbConfigView;

    open spec fn view(&self) -> DbConfigView {
        DbConfigView {
            host: self.host@,
            port: self.port,
            user: self.user@,
            password: self.password@,
            database: self.database@,
            root_cert_path: self.root_cert_path.deep_view(),
        }
    }
}

impl DeepView for DbConfig {
    type V = DbConfigView;

    open spec fn deep_view(&self) -> DbConfigView {
        self@
    }
}

impl EnvironmentView {
    /// What is wrong with the environment, if anything: the first of the
    /// host, the port, the user, the password and the database, in this
    /// order, that is not set, or the port when it is set to no port number.
    pub open spec fn defect(self) -> Option<ConfigError> {
        if self.db_server is None {
            Some(ConfigError::Missing(Variable::DbServer))
        } else if self.db_port is None {
            Some(ConfigError::Missing(Variable::DbPort))
        } else if parse_port_spec(self.db_port->0) is None {
            Some(ConfigError::Malformed(Variable::DbPort))
        } else if self.db_user is None {
            Some(ConfigError::Missing(Variable::DbUser))
        } else if self.db_passwd is None {
            Some(ConfigError::Missing(Variable::DbPasswd))
        } else if self.db_database is None {
            Some(ConfigError::Missing(Variable::DbDatabase))
        } else {
            None
        }
    }

    /// The configuration that the environment makes, or what is wrong with
    /// it. The connection is encrypted exactly when `USE_SSL` is set to
    /// `USE_SSL_ON`.
    pub open spec fn config(self) -> Result<DbConfigView, ConfigError> {
        match self.defect() {
            Some(error) => Err(error),
            None => Ok(
                DbConfigView {
                    host: self.db_server->0,
                    port: parse_port_spec(self.db_port->0)->0,
                    user: self.db_user->0,
                    password: self.db_passwd->0,
                    database: self.db_database->0,
                    root_cert_path: if self.use_ssl == Some(USE_SSL_ON@) {
                        Some(ROOT_CERT_PATH@)
                    } else {
                        None
                    },
                },
            ),
        }
    }
}

/// The value of the result of reading a configuration.
pub open spec fn config_view(r: Result<DbConfig, ConfigError>) -> Result<DbConfigView, ConfigError> {
    match r {
        Ok(config) => Ok(config@),
        Err(error) => Err(error),
    }
}

impl DbConfig {
    /// Makes the configuration of the connection from what the environment
    /// holds. The host, the port, the user, the password and the database
    /// are needed; the first of them, in this order, that is not set is the
    /// error, or the port when it is set to no port number. The connection
    /// is encrypted, against the root certificate at `ROOT_CERT_PATH`,
    /// exactly when `USE_SSL` is set to `USE_SSL_ON`.
    pub fn from_environment(environment: Environment) -> (r: Result<DbConfig, ConfigError>)
        ensures
            config_view(r) == environment@.config(),
    {
        let root_cert_path = match environment.use_ssl {
            Some(value) => {
                if value == String::from_str(USE_SSL_ON) {
                    Some(String::from_str(ROOT_CERT_PATH))
                } else {
                    None
                }
            },
            None => None,
        };
        let host = match environment.db_server {
            Some(host) => host,
            None => {
                return Err(ConfigError::Missing(Variable::DbServer));
            },
        };
        let port = match environment.db_port {
            Some(text) => match parse_port(text.as_str()) {
                Some(port) => port,
                None => {
                    return Err(ConfigError::Malformed(Variable::DbPort));
                },
            },
            None => {
                return Err(ConfigError::Missing(Variable::DbPort));
            },
        };
        let user = match environment.db_user {
            Some(user) => user,
            None => {
                return Err(ConfigError::Missing(Variable::DbUser));
            },
        };
        let password = match environment.db_passwd {
            Some(password) => password,
            None => {
                return Err(ConfigError::Missing(Variable::DbPasswd));
            },
        };
        let database = match environment.db_database {
            Some(database) => database,
            None => {
                return Err(ConfigError::Missing(Variable::DbDatabase));
            },
        };
        Ok(DbConfig { host, port, user, password, database, root_cert_path })
    }
}

} // verus!
