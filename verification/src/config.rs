//! The settings that the process starts with.

use vstd::prelude::*;
use vstd::string::*;

verus! {

/// Where the database is and how to log in.
#[derive(Debug, Clone)]
pub struct DatabaseConfig {
    pub host: String,
    pub port: u16,
    pub username: String,
    pub password: String,
    pub database: String,
}

impl DatabaseConfig {
    pub fn new(host: String, port: u16, username: String, password: String, database: String) -> (r:
        DatabaseConfig)
        ensures
            r == (DatabaseConfig { host, port, username, password, database }),
    {
        DatabaseConfig { host, port, username, password, database }
    }
}

/// Where the object storage is and how to log in.
#[derive(Debug, Clone)]
pub struct StorageConfig {
    pub access_key: String,
    pub secret_key: String,
    pub region: String,
    pub endpoint: String,
}

impl StorageConfig {
    pub fn new(access_key: String, secret_key: String, region: String, endpoint: String) -> (r:
        StorageConfig)
        ensures
            r == (StorageConfig { access_key, secret_key, region, endpoint }),
    {
        StorageConfig { access_key, secret_key, region, endpoint }
    }
}

/// The settings of the whole process.
#[derive(Debug, Clone)]
pub struct AppConfig {
    pub database: DatabaseConfig,
    pub storage: StorageConfig,
}

/// The variables of the environment that hold the settings.
#[derive(Debug, Clone, Copy, PartialEq, Eq, Structural)]
pub enum Variable {
    DatabaseHost,
    PostgresPort,
    DatabaseUsername,
    DatabasePassword,
    DatabaseName,
    StorageAccessKey,
    StorageSecretKey,
    StorageRegion,
    StorageEndpoint,
}

impl Variable {
    /// The name of the variable in the environment.
    pub open spec fn name(self) -> Seq<char> {
        match self {
            Variable::DatabaseHost => "DATABASE_HOST"@,
            Variable::PostgresPort => "POSTGRES_PORT"@,
            Variable::DatabaseUsername => "DATABASE_USERNAME"@,
            Variable::DatabasePassword => "DATABASE_PASSWORD"@,
            Variable::DatabaseName => "DATABASE_NAME"@,
            Variable::StorageAccessKey => "STORAGE_ACCESS_KEY"@,
            Variable::StorageSecretKey => "STORAGE_SECRET_KEY"@,
            Variable::StorageRegion => "STORAGE_REGION"@,
            Variable::StorageEndpoint => "STORAGE_ENDPOINT"@,
        }
    }

    /// The name of the variable in the environment.
    pub fn as_name(&self) -> (r: &'static str)
        ensures
            r@ == self.name(),
    {
        match self {
            Variable::DatabaseHost => "DATABASE_HOST",
            Variable::PostgresPort => "POSTGRES_PORT",
            Variable::DatabaseUsername => "DATABASE_USERNAME",
            Variable::DatabasePassword => "DATABASE_PASSWORD",
            Variable::DatabaseName => "DATABASE_NAME",
            Variable::StorageAccessKey => "STORAGE_ACCESS_KEY",
            Variable::StorageSecretKey => "STORAGE_SECRET_KEY",
            Variable::StorageRegion => "STORAGE_REGION",
            Variable::StorageEndpoint => "STORAGE_ENDPOINT",
        }
    }
}

/// Why the settings could not be put together.
#[derive(Debug, Clone, Copy, PartialEq, Eq, Structural)]
pub enum ConfigError {
    /// The variable is not set.
    Missing(Variable),
    /// The port is no number between 0 and 65535.
    InvalidPort,
}

/// What the environment holds for each variable, as far as it is set.
#[derive(Debug, Clone)]
pub struct Environment {
    pub database_host: Option<String>,
    pub postgres_port: Option<String>,
    pub database_username: Option<String>,
    pub database_password: Option<String>,
    pub database_name: Option<String>,
    pub storage_access_key: Option<String>,
    pub storage_secret_key: Option<String>,
    pub storage_region: Option<String>,
    pub storage_endpoint: Option<String>,
}

/// The value of a decimal digit, if the character is one.
pub open spec fn digit_value(c: char) -> Option<nat> {
    if '0' <= c && c <= '9' {
        Some((c as nat - '0' as nat) as nat)
    } else {
        None
    }
}

/// The number that the first `n` characters write in decimal, if they are
/// all digits.
pub open spec fn decimal_value(digits: Seq<char>, n: nat) -> Option<nat>
    decreases n,
{
    if n == 0 {
        Some(0)
    } else {
        match (decimal_value(digits, (n - 1) as nat), digit_value(digits[n - 1])) {
            (Some(high), Some(low)) => Some(high * 10 + low),
            _ => None,
        }
    }
}

/// The port that a text writes: digits only, after a plus sign or none,
/// at least one, and together no more than 65535.
pub open spec fn port_of(text: Seq<char>) -> Option<u16> {
    let digits = if text.len() > 0 && text[0] == '+' {
        text.skip(1)
    } else {
        text
    };
    if digits.len() == 0 {
        None
    } else {
        match decimal_value(digits, digits.len()) {
            Some(value) => if value <= u16::MAX {
                Some(value as u16)
            } else {
                None
            },
            None => None,
        }
    }
}

/// Reads a port from a text.
pub fn parse_port(text: &str) -> (r: Option<u16>)
    ensures
        r == port_of(text@),
{
    let ghost digits = if text@.len() > 0 && text@[0] == '+' {
        text@.skip(1)
    } else {
        text@
    };
    let mut value: u32 = 0;
    let mut any: bool = false;
    let mut signed: bool = false;
    let mut first: bool = true;
    for c in it: text.chars()
        invariant
            it.seq() == text@,
            digits == (if text@.len() > 0 && text@[0] == '+' {
                text@.skip(1)
            } else {
                text@
            }),
            first == (it.index() == 0),
            signed == (it.index() > 0 && text@[0] == '+'),
            any == (it.index() - if signed { 1int } else { 0 } > 0),
            decimal_value(digits, (it.index() - if signed { 1int } else { 0 }) as nat) == Some(
                value as nat,
            ),
            value <= u16::MAX,
    {
        let ghost seen = it.index() - if signed { 1int } else { 0 };
        if first && c == '+' {
            signed = true;
        } else {
            proof {
                assert(c == text@[it.index()]);
                assert(digits[seen] == c);
            }
            if c < '0' || c > '9' {
                proof {
                    assert(decimal_value(digits, (seen + 1) as nat) is None);
                    lemma_decimal_value_stays_none(digits, (seen + 1) as nat, digits.len());
                }
                return None;
            }
            let low: u32 = c as u32 - '0' as u32;
            let next: u32 = value * 10 + low;
            proof {
                assert(decimal_value(digits, (seen + 1) as nat) == Some(next as nat));
            }
            if next > 65535 {
                proof {
                    lemma_decimal_value_grows(digits, (seen + 1) as nat, digits.len());
                }
                return None;
            }
            value = next;
            any = true;
        }
        first = false;
    }
    if !any {
        return None;
    }
    Some(value as u16)
}

/// Once a character is no digit, no longer prefix writes a number.
proof fn lemma_decimal_value_stays_none(digits: Seq<char>, n: nat, m: nat)
    requires
        n <= m,
        decimal_value(digits, n) is None,
    ensures
        decimal_value(digits, m) is None,
    decreases m,
{
    if n < m {
        lemma_decimal_value_stays_none(digits, n, (m - 1) as nat);
    }
}

/// A longer prefix writes no smaller number.
proof fn lemma_decimal_value_grows(digits: Seq<char>, n: nat, m: nat)
    requires
        n <= m,
        decimal_value(digits, n) is Some,
    ensures
        decimal_value(digits, m) is Some ==> decimal_value(digits, m)->Some_0 >= decimal_value(
            digits,
            n,
        )->Some_0,
    decreases m,
{
    if n < m {
        lemma_decimal_value_grows(digits, n, (m - 1) as nat);
        if decimal_value(digits, m) is Some {
            assert(decimal_value(digits, (m - 1) as nat) is Some);
        }
    }
}

/// The first of two findings.
pub open spec fn first_problem(a: Option<ConfigError>, b: Option<ConfigError>) -> Option<
    ConfigError,
> {
    if a is Some {
        a
    } else {
        b
    }
}

/// That `variable` is missing, where `value` is none.
pub open spec fn missing(value: Option<String>, variable: Variable) -> Option<ConfigError> {
    if value is None {
        Some(ConfigError::Missing(variable))
    } else {
        None
    }
}

impl Environment {
    /// What is wrong with the port, if anything: it is not set, or it is
    /// no port.
    pub open spec fn port_problem(self) -> Option<ConfigError> {
        match self.postgres_port {
            None => Some(ConfigError::Missing(Variable::PostgresPort)),
            Some(text) => if port_of(text@) is None {
                Some(ConfigError::InvalidPort)
            } else {
                None
            },
        }
    }

    /// The first thing that keeps the settings from being put together, in
    /// the order in which the variables are read: the host of the
    /// database, its port, the user, the password, the name of the
    /// database; then the access key of the storage, its secret key, its
    /// region, its endpoint.
    pub open spec fn problem(self) -> Option<ConfigError> {
        first_problem(
            missing(self.database_host, Variable::DatabaseHost),
            first_problem(
                self.port_problem(),
                first_problem(
                    missing(self.database_username, Variable::DatabaseUsername),
                    first_problem(
                        missing(self.database_password, Variable::DatabasePassword),
                        first_problem(
                            missing(self.database_name, Variable::DatabaseName),
                            first_problem(
                                missing(self.storage_access_key, Variable::StorageAccessKey),
                                first_problem(
                                    missing(self.storage_secret_key, Variable::StorageSecretKey),
                                    first_problem(
                                        missing(self.storage_region, Variable::StorageRegion),
                                        missing(self.storage_endpoint, Variable::StorageEndpoint),
                                    ),
                                ),
                            ),
                        ),
                    ),
                ),
            ),
        )
    }
}

impl AppConfig {
    /// Puts the settings together from what the environment holds. One
    /// variable that is not set, or a port that is no port, and there are
    /// no settings.
    pub fn from_environment(environment: Environment) -> (r: Result<AppConfig, ConfigError>)
        ensures
            match environment.problem() {
                Some(e) => r == Err::<AppConfig, ConfigError>(e),
                None => r == Ok::<AppConfig, ConfigError>(
                    AppConfig {
                        database: DatabaseConfig {
                            host: environment.database_host->Some_0,
                            port: port_of(environment.postgres_port->Some_0@)->Some_0,
                            username: environment.database_username->Some_0,
                            password: environment.database_password->Some_0,
                            database: environment.database_name->Some_0,
                        },
                        storage: StorageConfig {
                            access_key: environment.storage_access_key->Some_0,
                            secret_key: environment.storage_secret_key->Some_0,
                            region: environment.storage_region->Some_0,
                            endpoint: environment.storage_endpoint->Some_0,
                        },
                    },
                ),
            },
    {
        let Environment {
            database_host,
            postgres_port,
            database_username,
            database_password,
            database_name,
            storage_access_key,
            storage_secret_key,
            storage_region,
            storage_endpoint,
        } = environment;
        let host = match database_host {
            Some(value) => value,
            None => { return Err(ConfigError::Missing(Variable::DatabaseHost)); },
        };
        let port = match postgres_port {
            Some(text) => match parse_port(text.as_str()) {
                Some(port) => port,
                None => { return Err(ConfigError::InvalidPort); },
            },
            None => { return Err(ConfigError::Missing(Variable::PostgresPort)); },
        };
        let username = match database_username {
            Some(value) => value,
            None => { return Err(ConfigError::Missing(Variable::DatabaseUsername)); },
        };
        let password = match database_password {
            Some(value) => value,
            None => { return Err(ConfigError::Missing(Variable::DatabasePassword)); },
        };
        let database = match database_name {
            Some(value) => value,
            None => { return Err(ConfigError::Missing(Variable::DatabaseName)); },
        };
        let access_key = match storage_access_key {
            Some(value) => value,
            None => { return Err(ConfigError::Missing(Variable::StorageAccessKey)); },
        };
        let secret_key = match storage_secret_key {
            Some(value) => value,
            None => { return Err(ConfigError::Missing(Variable::StorageSecretKey)); },
        };
        let region = match storage_region {
            Some(value) => value,
            None => { return Err(ConfigError::Missing(Variable::StorageRegion)); },
        };
        let endpoint = match storage_endpoint {
            Some(value) => value,
            None => { return Err(ConfigError::Missing(Variable::StorageEndpoint)); },
        };
        Ok(
            AppConfig {
                database: DatabaseConfig::new(host, port, username, password, database),
                storage: StorageConfig::new(access_key, secret_key, region, endpoint),
            },
        )
    }
}

} // verus!
