//! The settings the service starts from.

use vstd::prelude::*;
use vstd::string::*;

verus! {

/// The environment the service runs in.
#[derive(Debug, Clone, Copy, PartialEq, Eq, Structural)]
pub enum Environment {
    Development,
    Production,
}

/// What a name that is no environment is answered with: the name, unchanged,
/// then a fixed ending.
pub open spec fn unsupported_environment(name: Seq<char>) -> Seq<char> {
    name + " is not a supported environment."@
}

impl Environment {
    /// The name an environment goes by.
    pub open spec fn name(self) -> Seq<char> {
        match self {
            Environment::Development => "development"@,
            Environment::Production => "production"@,
        }
    }

    /// The name of this environment.
    pub fn as_str(&self) -> (r: &'static str)
        ensures
            r@ == self.name(),
    {
        match self {
            Environment::Development => "development",
            Environment::Production => "production",
        }
    }
}

/// What parsing a name comes to: the environment that goes by exactly that
/// name, or the message that quotes the name.
pub open spec fn parse_environment(name: Seq<char>) -> Result<Environment, Seq<char>> {
    if name == Environment::Production.name() {
        Ok(Environment::Production)
    } else if name == Environment::Development.name() {
        Ok(Environment::Development)
    } else {
        Err(unsupported_environment(name))
    }
}

/// The outcome of parsing as plain values.
pub open spec fn environment_outcome(r: Result<Environment, String>) -> Result<
    Environment,
    Seq<char>,
> {
    match r {
        Ok(environment) => Ok(environment),
        Err(message) => Err(message@),
    }
}

impl TryFrom<String> for Environment {
    type Error = String;

    /// The environment that `value` names, letter for letter.
    fn try_from(value: String) -> (r: Result<Environment, String>)
        ensures
            environment_outcome(r) == parse_environment(value@),
    {
        if value == String::from_str("production") {
            Ok(Environment::Production)
        } else if value == String::from_str("development") {
            Ok(Environment::Development)
        } else {
            Err(value.concat(" is not a supported environment."))
        }
    }
}

/// The contract of the conversion is the `ensures` of `try_from` above; it
/// speaks of the view of the message, which no spec function on the values
/// themselves can give.
impl vstd::std_specs::convert::TryFromSpecImpl<String> for Environment {
    open spec fn obeys_try_from_spec() -> bool {
        false
    }

    open spec fn try_from_spec(value: String) -> Result<Environment, String> {
        arbitrary()
    }
}

/// No two environments go by one name.
pub proof fn lemma_names_differ(a: Environment, b: Environment)
    requires
        a.name() == b.name(),
    ensures
        a == b,
{
    reveal_strlit("production");
    reveal_strlit("development");
    assert("production"@.len() == 10);
    assert("development"@.len() == 11);
}

/// The name of an environment parses back to that environment.
pub proof fn lemma_name_parses_back(environment: Environment)
    ensures
        parse_environment(environment.name()) == Ok::<Environment, Seq<char>>(environment),
{
    if environment.name() == Environment::Production.name() {
        lemma_names_differ(environment, Environment::Production);
    }
}

/// The environment that a selection comes to: development where nothing is
/// selected, else what the selected name parses to.
pub open spec fn select_environment(selected: Option<Seq<char>>) -> Result<Environment, Seq<char>> {
    match selected {
        None => Ok(Environment::Development),
        Some(name) => parse_environment(name),
    }
}

/// The environment to run in, given what the variable that selects it holds,
/// if it is set.
pub fn environment_or_default(selected: Option<String>) -> (r: Result<Environment, String>)
    ensures
        environment_outcome(r) == select_environment(
            match selected {
                Some(name) => Some(name@),
                None => None,
            },
        ),
{
    match selected {
        None => Ok(Environment::Development),
        Some(value) => Environment::try_from(value),
    }
}

/// The name of the file that holds the settings of one environment.
pub open spec fn environment_file(environment: Environment) -> Seq<char> {
    environment.name() + ".yaml"@
}

/// The name of the file that holds the settings of `environment`.
pub fn environment_filename(environment: &Environment) -> (r: String)
    ensures
        r@ == environment_file(*environment),
{
    String::from_str(environment.as_str()).concat(".yaml")
}

/// Where the service listens.
#[derive(Debug)]
pub struct ApplicationSettings {
    pub port: u16,
    pub host: String,
}

/// How the database is reached.
pub struct DatabaseSettings {
    pub username: String,
    pub password: String,
    pub host: String,
    pub port: u16,
    pub database_name: String,
    pub require_ssl: bool,
}

/// All the settings of the service.
pub struct Settings {
    pub database: DatabaseSettings,
    pub application: ApplicationSettings,
}

/// Whether a connection insists on encryption or only asks for it.
#[derive(Debug, Clone, Copy, PartialEq, Eq, Structural)]
pub enum SslMode {
    Prefer,
    Require,
}

/// What a connection to the database server is opened with.
pub struct ConnectionOptions {
    pub username: String,
    pub password: String,
    pub host: String,
    pub port: u16,
    pub ssl_mode: SslMode,
    /// The database to use, where one is chosen.
    pub database: Option<String>,
    /// Whether each statement is logged at trace level.
    pub trace_statements: bool,
}

/// The connection options as plain values.
pub struct ConnectionOptionsView {
    pub username: Seq<char>,
    pub password: Seq<char>,
    pub host: Seq<char>,
    pub port: u16,
    pub ssl_mode: SslMode,
    pub database: Option<Seq<char>>,
    pub trace_statements: bool,
}

impl View for ConnectionOptions {
    type V = ConnectionOptionsView;

    open spec fn view(&self) -> ConnectionOptionsView {
        ConnectionOptionsView {
            username: self.username@,
            password: self.password@,
            host: self.host@,
            port: self.port,
            ssl_mode: self.ssl_mode,
            database: match self.database {
                Some(name) => Some(name@),
                None => None,
            },
            trace_statements: self.trace_statements,
        }
    }
}

impl DatabaseSettings {
    /// The encryption these settings ask for.
    pub open spec fn ssl_mode(self) -> SslMode {
        if self.require_ssl {
            SslMode::Require
        } else {
            SslMode::Prefer
        }
    }

    /// The options that reach the server without choosing a database.
    pub open spec fn server_options(self) -> ConnectionOptionsView {
        ConnectionOptionsView {
            username: self.username@,
            password: self.password@,
            host: self.host@,
            port: self.port,
            ssl_mode: self.ssl_mode(),
            database: None,
            trace_statements: false,
        }
    }

    /// The options that reach the database of these settings: those that
    /// reach the server, with the database chosen and statements traced.
    pub open spec fn database_options(self) -> ConnectionOptionsView {
        ConnectionOptionsView {
            database: Some(self.database_name@),
            trace_statements: true,
            ..self.server_options()
        }
    }

    /// The options for a connection to the database of these settings.
    pub fn with_db(&self) -> (r: ConnectionOptions)
        ensures
            r@ == self.database_options(),
    {
        let server = self.without_db();
        ConnectionOptions {
            username: server.username,
            password: server.password,
            host: server.host,
            port: server.port,
            ssl_mode: server.ssl_mode,
            database: Some(self.database_name.clone()),
            trace_statements: true,
        }
    }

    /// The options for a connection to the server, with no database chosen.
    pub fn without_db(&self) -> (r: ConnectionOptions)
        ensures
            r@ == self.server_options(),
    {
        let ssl_mode = if self.require_ssl {
            SslMode::Require
        } else {
            SslMode::Prefer
        };
        ConnectionOptions {
            username: self.username.clone(),
            password: self.password.clone(),
            host: self.host.clone(),
            port: self.port,
            ssl_mode,
            database: None,
            trace_statements: false,
        }
    }
}

} // verus!
