//! Application configuration: its values and the checks they must pass.

use crate::number::{parse_in_range, parse_integer, problem_text};
use crate::slug::{lower_of, lowercase};
use crate::text::{decimal, push_decimal, starts_with, str_eq, utf8_len};
use vstd::prelude::*;
use vstd::string::{StrSliceExecFns, StringExecFns};

verus! {

/// The environment the application runs in.
#[derive(Clone, Copy, Debug, PartialEq, Eq, Structural)]
pub enum Environment {
    Development,
    Production,
    Test,
}

/// The name an environment prints as.
pub open spec fn environment_name(e: Environment) -> Seq<char> {
    match e {
        Environment::Development => "development"@,
        Environment::Production => "production"@,
        Environment::Test => "test"@,
    }
}

/// The environment a name stands for, once in lowercase, if any.
pub open spec fn environment_named(lower: Seq<char>) -> Option<Environment> {
    if lower == "development"@ || lower == "dev"@ {
        Some(Environment::Development)
    } else if lower == "production"@ || lower == "prod"@ {
        Some(Environment::Production)
    } else if lower == "test"@ {
        Some(Environment::Test)
    } else {
        None
    }
}

impl Environment {
    /// Whether this is the development environment.
    pub fn is_development(&self) -> (r: bool)
        ensures
            r == (*self == Environment::Development),
    {
        matches!(self, Environment::Development)
    }

    /// Whether this is the production environment.
    pub fn is_production(&self) -> (r: bool)
        ensures
            r == (*self == Environment::Production),
    {
        matches!(self, Environment::Production)
    }

    /// Whether this is the test environment.
    pub fn is_test(&self) -> (r: bool)
        ensures
            r == (*self == Environment::Test),
    {
        matches!(self, Environment::Test)
    }

    /// The environment's name: `development`, `production` or `test`.
    pub fn to_string(&self) -> (r: String)
        ensures
            r@ == environment_name(*self),
    {
        match self {
            Environment::Development => String::from_str("development"),
            Environment::Production => String::from_str("production"),
            Environment::Test => String::from_str("test"),
        }
    }

    /// The environment named by `lower`, a name already in lowercase.
    pub fn from_lowercase(lower: &str) -> (r: Option<Environment>)
        ensures
            r == environment_named(lower@),
    {
        if str_eq(lower, "development") || str_eq(lower, "dev") {
            Some(Environment::Development)
        } else if str_eq(lower, "production") || str_eq(lower, "prod") {
            Some(Environment::Production)
        } else if str_eq(lower, "test") {
            Some(Environment::Test)
        } else {
            None
        }
    }

    /// The environment named by `s`, in any case; otherwise the message
    /// `Invalid environment: {s}`.
    pub fn parse(s: &str) -> (r: Result<Environment, String>)
        ensures
            match r {
                Ok(e) => environment_named(lower_of(s@)) == Some(e),
                Err(m) => environment_named(lower_of(s@)) is None && m@ == "Invalid environment: "@ + s@,
            },
    {
        let lower = lowercase(s);
        match Environment::from_lowercase(lower.as_str()) {
            Some(e) => Ok(e),
            None => {
                let mut m = String::from_str("Invalid environment: ");
                m.append(s);
                Err(m)
            },
        }
    }
}

impl std::str::FromStr for Environment {
    type Err = String;

    fn from_str(s: &str) -> Result<Environment, String> {
        Environment::parse(s)
    }
}

/// Why a configuration was refused.
pub enum ConfigError {
    /// A required variable is absent.
    MissingVariable(String),
    /// A variable holds a value that is not allowed: its name, and why.
    InvalidValue(String, String),
}

/// The configuration of the application.
pub struct Config {
    /// The PostgreSQL connection string.
    pub database_url: String,
    /// The host the server listens on.
    pub host: String,
    /// The port the server listens on.
    pub port: u16,
    /// The key that signs and checks tokens.
    pub jwt_secret: String,
    /// How long a token lasts, in hours.
    pub jwt_expiration_hours: i64,
    /// The largest upload accepted, in bytes.
    pub max_file_size_bytes: usize,
    /// The origin allowed to make cross-origin requests.
    pub cors_origin: String,
    /// The environment the application runs in.
    pub environment: Environment,
}

/// The shortest secret accepted, in bytes.
pub const MIN_SECRET_BYTES: usize = 32;

/// The largest upload size accepted, in bytes: one gibibyte.
pub const MAX_UPLOAD_BYTES: usize = 1073741824;

/// Whether `url` names a PostgreSQL database.
pub open spec fn postgres_url(url: Seq<char>) -> bool {
    "postgres://"@.is_prefix_of(url) || "postgresql://"@.is_prefix_of(url)
}

/// The first check that `c` fails, as the variable it names and the reason given.
pub open spec fn config_problem(c: Config) -> Option<(Seq<char>, Seq<char>)> {
    if utf8_len(c.jwt_secret@) < MIN_SECRET_BYTES {
        Some(("JWT_SECRET"@, "Secret must be at least 32 characters long for security"@))
    } else if c.jwt_expiration_hours <= 0 {
        Some(("JWT_EXPIRATION_HOURS"@, "Expiration must be positive"@))
    } else if c.max_file_size_bytes > MAX_UPLOAD_BYTES {
        Some(("MAX_FILE_SIZE_MB"@, "Maximum file size cannot exceed 1024 MB (1 GB)"@))
    } else if !postgres_url(c.database_url@) {
        Some(("DATABASE_URL"@, "Must be a valid PostgreSQL connection string"@))
    } else {
        None
    }
}

fn invalid(name: &str, reason: &str) -> (e: ConfigError)
    ensures
        match e {
            ConfigError::InvalidValue(n, m) => n@ == name@ && m@ == reason@,
            _ => false,
        },
{
    ConfigError::InvalidValue(String::from_str(name), String::from_str(reason))
}

/// The value of the first variable of `vars` named `name`.
pub open spec fn var_value(vars: Seq<(String, String)>, name: Seq<char>) -> Option<Seq<char>>
    decreases vars.len(),
{
    if vars.len() == 0 {
        None
    } else if vars[0].0@ == name {
        Some(vars[0].1@)
    } else {
        var_value(vars.skip(1), name)
    }
}

/// The value given, or `default` when there is none.
pub open spec fn value_or(v: Option<Seq<char>>, default: Seq<char>) -> Seq<char> {
    match v {
        Some(s) => s,
        None => default,
    }
}

/// Bytes in a mebibyte.
pub const MEBIBYTE: usize = 1_048_576;

/// The text of the port setting.
pub open spec fn port_text(vars: Seq<(String, String)>) -> Seq<char> {
    value_or(var_value(vars, "PORT"@), "3000"@)
}

/// The text of the token lifetime setting.
pub open spec fn hours_text(vars: Seq<(String, String)>) -> Seq<char> {
    value_or(var_value(vars, "JWT_EXPIRATION_HOURS"@), "24"@)
}

/// The text of the upload size setting, in mebibytes.
pub open spec fn size_text(vars: Seq<(String, String)>) -> Seq<char> {
    value_or(var_value(vars, "MAX_FILE_SIZE_MB"@), "10"@)
}

/// The name of the environment: `APP_ENV`, else `ENVIRONMENT`, else `development`.
pub open spec fn environment_text(vars: Seq<(String, String)>) -> Seq<char> {
    match var_value(vars, "APP_ENV"@) {
        Some(v) => v,
        None => value_or(var_value(vars, "ENVIRONMENT"@), "development"@),
    }
}

/// What a `ConfigError` says: whether a variable is missing, which one, and why.
pub open spec fn error_view(e: ConfigError) -> (bool, Seq<char>, Seq<char>) {
    match e {
        ConfigError::MissingVariable(n) => (true, n@, Seq::empty()),
        ConfigError::InvalidValue(n, m) => (false, n@, m@),
    }
}

/// The first reason, in the order the settings are read, why `vars` do not
/// make a configuration. An upload size whose byte count does not fit in
/// `usize` is refused as too large.
pub open spec fn load_problem(vars: Seq<(String, String)>) -> Option<(bool, Seq<char>, Seq<char>)> {
    if var_value(vars, "DATABASE_URL"@) is None {
        Some((true, "DATABASE_URL"@, Seq::empty()))
    } else if var_value(vars, "JWT_SECRET"@) is None {
        Some((true, "JWT_SECRET"@, Seq::empty()))
    } else if let Err(p) = parse_in_range(port_text(vars), 0, u16::MAX as int) {
        Some((false, "PORT"@, problem_text(p)))
    } else if let Err(p) = parse_in_range(hours_text(vars), i64::MIN as int, i64::MAX as int) {
        Some((false, "JWT_EXPIRATION_HOURS"@, problem_text(p)))
    } else if let Err(p) = parse_in_range(size_text(vars), 0, usize::MAX as int) {
        Some((false, "MAX_FILE_SIZE_MB"@, problem_text(p)))
    } else if parse_in_range(size_text(vars), 0, usize::MAX as int)->Ok_0 * MEBIBYTE > usize::MAX {
        Some((false, "MAX_FILE_SIZE_MB"@, "number too large to fit in target type"@))
    } else if environment_named(lower_of(environment_text(vars))) is None {
        Some((false, "APP_ENV"@, "Invalid environment: "@ + environment_text(vars)))
    } else {
        None
    }
}

/// The value of the first variable of `vars` named `name`.
fn lookup(vars: &Vec<(String, String)>, name: &str) -> (r: Option<String>)
    ensures
        match r {
            Some(v) => var_value(vars@, name@) == Some(v@),
            None => var_value(vars@, name@) is None,
        },
{
    let mut i: usize = 0;
    assert(vars@.skip(0) =~= vars@);
    while i < vars.len()
        invariant
            i <= vars@.len(),
            var_value(vars@, name@) == var_value(vars@.skip(i as int), name@),
        decreases vars@.len() - i,
    {
        assert(vars@.skip(i as int).skip(1) =~= vars@.skip(i + 1));
        if str_eq(vars[i].0.as_str(), name) {
            return Some(vars[i].1.clone());
        }
        i = i + 1;
    }
    None
}

fn lookup_or(vars: &Vec<(String, String)>, name: &str, default: &str) -> (r: String)
    ensures
        r@ == value_or(var_value(vars@, name@), default@),
{
    match lookup(vars, name) {
        Some(v) => v,
        None => String::from_str(default),
    }
}

fn invalid_owned(name: &str, reason: String) -> (e: ConfigError)
    ensures
        error_view(e) == (false, name@, reason@),
{
    ConfigError::InvalidValue(String::from_str(name), reason)
}

fn missing(name: &str) -> (e: ConfigError)
    ensures
        error_view(e) == (true, name@, Seq::<char>::empty()),
{
    ConfigError::MissingVariable(String::from_str(name))
}

impl Config {
    /// The configuration that the variables `vars` describe, as name and
    /// value pairs; the first pair of a name counts. `DATABASE_URL` and
    /// `JWT_SECRET` are required; `HOST` (127.0.0.1), `PORT` (3000),
    /// `JWT_EXPIRATION_HOURS` (24), `MAX_FILE_SIZE_MB` (10), `CORS_ORIGIN` (`*`)
    /// and `APP_ENV` or `ENVIRONMENT` (development) fall back to the values shown.
    pub fn from_vars(vars: &Vec<(String, String)>) -> (r: Result<Config, ConfigError>)
        ensures
            match r {
                Ok(c) => {
                    &&& load_problem(vars@) is None
                    &&& var_value(vars@, "DATABASE_URL"@) == Some(c.database_url@)
                    &&& var_value(vars@, "JWT_SECRET"@) == Some(c.jwt_secret@)
                    &&& c.host@ == value_or(var_value(vars@, "HOST"@), "127.0.0.1"@)
                    &&& parse_in_range(port_text(vars@), 0, u16::MAX as int) == Ok::<int, crate::number::ParseProblem>(c.port as int)
                    &&& parse_in_range(hours_text(vars@), i64::MIN as int, i64::MAX as int) == Ok::<int, crate::number::ParseProblem>(c.jwt_expiration_hours as int)
                    &&& c.max_file_size_bytes == parse_in_range(size_text(vars@), 0, usize::MAX as int)->Ok_0 * MEBIBYTE
                    &&& c.cors_origin@ == value_or(var_value(vars@, "CORS_ORIGIN"@), "*"@)
                    &&& environment_named(lower_of(environment_text(vars@))) == Some(c.environment)
                },
                Err(e) => load_problem(vars@) == Some(error_view(e)),
            },
    {
        let database_url = match lookup(vars, "DATABASE_URL") {
            Some(v) => v,
            None => {
                return Err(missing("DATABASE_URL"));
            },
        };
        let jwt_secret = match lookup(vars, "JWT_SECRET") {
            Some(v) => v,
            None => {
                return Err(missing("JWT_SECRET"));
            },
        };
        let host = lookup_or(vars, "HOST", "127.0.0.1");
        let port_text = lookup_or(vars, "PORT", "3000");
        let port = match parse_integer(port_text.as_str(), 0, 65535) {
            Ok(v) => v as u16,
            Err(p) => {
                return Err(invalid_owned("PORT", p.message()));
            },
        };
        let hours_text = lookup_or(vars, "JWT_EXPIRATION_HOURS", "24");
        let jwt_expiration_hours = match parse_integer(hours_text.as_str(), i64::MIN as i128, i64::MAX as i128) {
            Ok(v) => v as i64,
            Err(p) => {
                return Err(invalid_owned("JWT_EXPIRATION_HOURS", p.message()));
            },
        };
        let size_text = lookup_or(vars, "MAX_FILE_SIZE_MB", "10");
        let max_file_size_mb = match parse_integer(size_text.as_str(), 0, usize::MAX as i128) {
            Ok(v) => v as usize,
            Err(p) => {
                return Err(invalid_owned("MAX_FILE_SIZE_MB", p.message()));
            },
        };
        assert(max_file_size_mb > usize::MAX / MEBIBYTE <==> max_file_size_mb * MEBIBYTE > usize::MAX) by (nonlinear_arith)
            requires
                MEBIBYTE == 1_048_576,
        {
        }
        if max_file_size_mb > usize::MAX / MEBIBYTE {
            return Err(invalid("MAX_FILE_SIZE_MB", "number too large to fit in target type"));
        }
        let max_file_size_bytes = max_file_size_mb * MEBIBYTE;
        let cors_origin = lookup_or(vars, "CORS_ORIGIN", "*");
        let environment_text = match lookup(vars, "APP_ENV") {
            Some(v) => v,
            None => lookup_or(vars, "ENVIRONMENT", "development"),
        };
        let environment = match Environment::parse(environment_text.as_str()) {
            Ok(e) => e,
            Err(m) => {
                return Err(invalid_owned("APP_ENV", m));
            },
        };
        Ok(Config {
            database_url,
            host,
            port,
            jwt_secret,
            jwt_expiration_hours,
            max_file_size_bytes,
            cors_origin,
            environment,
        })
    }

    /// `{host}:{port}`.
    pub fn server_address(&self) -> (r: String)
        ensures
            r@ == self.host@ + seq![':'] + decimal(self.port as nat),
    {
        let mut s = self.host.clone();
        s.append(":");
        proof { reveal_strlit(":"); }
        push_decimal(&mut s, self.port as u64);
        s
    }

    /// Checks, in order, that the secret has at least 32 bytes, that tokens
    /// last a positive time, that uploads are capped at 1 GiB, and that the
    /// database is PostgreSQL; the first failure is the error.
    pub fn validate(&self) -> (r: Result<(), ConfigError>)
        ensures
            match r {
                Ok(()) => config_problem(*self) is None,
                Err(ConfigError::InvalidValue(n, m)) => config_problem(*self) == Some((n@, m@)),
                Err(_) => false,
            },
    {
        if self.jwt_secret.as_str().len() < MIN_SECRET_BYTES {
            return Err(invalid("JWT_SECRET", "Secret must be at least 32 characters long for security"));
        }
        if self.jwt_expiration_hours <= 0 {
            return Err(invalid("JWT_EXPIRATION_HOURS", "Expiration must be positive"));
        }
        if self.max_file_size_bytes > MAX_UPLOAD_BYTES {
            return Err(invalid("MAX_FILE_SIZE_MB", "Maximum file size cannot exceed 1024 MB (1 GB)"));
        }
        if !starts_with(self.database_url.as_str(), "postgres://") && !starts_with(
            self.database_url.as_str(),
            "postgresql://",
        ) {
            return Err(invalid("DATABASE_URL", "Must be a valid PostgreSQL connection string"));
        }
        Ok(())
    }
}

} // verus!
