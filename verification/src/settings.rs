//! The service's settings, as read from its configuration files, and its
//! run environment.
use vstd::prelude::*;
use vstd::std_specs::convert::FromSpecImpl;
use crate::text::str_equals;

verus! {

/// The database and the address the service listens on.
#[derive(Debug, Clone)]
pub struct Server {
    pub database_url: String,
    pub host: String,
    pub port: u16,
}

/// The level of the service's log.
#[derive(Debug, Clone)]
pub struct Log {
    pub level: String,
}

/// Whether the OpenAPI documentation is served.
#[derive(Debug, Clone)]
pub struct OpenApi {
    pub swagger: bool,
}

/// Settings of the storefront application.
#[derive(Debug, Clone)]
pub struct App {
    pub image_url: String,
}

/// Where and as whom the business API is called.
#[derive(Debug, Clone)]
pub struct Api {
    pub api_server: String,
    pub api_user: String,
    pub api_pass: String,
}

/// The secret that signs bearer tokens and their lifetime in seconds.
#[derive(Debug, Clone)]
pub struct Jwt {
    pub jwt_secret: String,
    pub jwt_secs: usize,
}

/// How many seconds the scheduler's jobs wait between rounds.
#[derive(Debug, Clone)]
pub struct Job {
    pub seconds: i32,
}

/// The environment the service runs in.
#[derive(Clone, Debug, PartialEq, Eq, Structural)]
pub enum ENV {
    Development,
    Testing,
    Production,
}

/// The name of an environment.
pub open spec fn env_name(env: ENV) -> Seq<char> {
    match env {
        ENV::Development => "Development"@,
        ENV::Testing => "Testing"@,
        ENV::Production => "Production"@,
    }
}

/// The environment a name stands for: `Testing` and `Production` by their
/// names, `Development` for every other text.
pub open spec fn env_of_name(name: Seq<char>) -> ENV {
    if name == "Testing"@ {
        ENV::Testing
    } else if name == "Production"@ {
        ENV::Production
    } else {
        ENV::Development
    }
}

impl ENV {
    /// The environment's name, as the service prints it.
    pub fn to_string(&self) -> (res: String)
        ensures
            res@ == env_name(*self),
    {
        match self {
            ENV::Development => String::from_str("Development"),
            ENV::Testing => String::from_str("Testing"),
            ENV::Production => String::from_str("Production"),
        }
    }
}

impl<'a> From<&'a str> for ENV {
    /// Reads an environment's name: `Testing` and `Production` by their
    /// names, `Development` for every other text.
    fn from(env: &'a str) -> (res: Self)
        ensures
            res == env_of_name(env@),
    {
        if str_equals(env, "Testing") {
            ENV::Testing
        } else if str_equals(env, "Production") {
            ENV::Production
        } else {
            ENV::Development
        }
    }
}

impl<'a> FromSpecImpl<&'a str> for ENV {
    open spec fn obeys_from_spec() -> bool {
        true
    }

    open spec fn from_spec(env: &'a str) -> ENV {
        env_of_name(env@)
    }
}

/// Reads an environment's name: `Testing` and `Production` by their names,
/// `Development` for every other text.
pub fn env_from_name(name: &str) -> (res: ENV)
    ensures
        res == env_of_name(name@),
{
    ENV::from(name)
}

/// Reading back the name of an environment gives that environment.
pub proof fn lemma_env_name_round_trip(env: ENV)
    ensures
        env_of_name(env_name(env)) == env,
{
    reveal_strlit("Development");
    reveal_strlit("Testing");
    reveal_strlit("Production");
    assert("Development"@.len() == 11);
    assert("Testing"@.len() == 7);
    assert("Production"@.len() == 10);
}

} // verus!
