//! Invocation setup: the command-line argument record, the environment
//! catalogue, and the decisions behind credential retrieval — which secret
//! variable and token endpoint an environment maps to, and what token a
//! token-endpoint reply yields.
use vstd::prelude::*;

use crate::text::str_eq;

verus! {

/// The deployment environment a run is aimed at.
#[derive(Debug, Clone, Copy, PartialEq, Eq, Structural)]
pub enum Environment {
    Local,
    Dev,
    Staging,
    Production,
}

/// The command-line arguments, as plain data.
#[derive(Debug, Clone)]
pub struct Args {
    pub verbose: bool,
    pub environmnet: String,
    pub advertiser_id: Option<i32>,
    pub external_id: Option<i32>,
    pub migration_step: Option<String>,
    pub toml_config: Option<String>,
}

/// The configuration file used for an argument record: an explicit path when
/// one was given, else the file conventional for the named environment.
pub open spec fn spec_config_path(a: Args) -> Seq<char> {
    match a.toml_config {
        Some(p) => p@,
        None => if a.environmnet@ == "dev"@ {
            "tests.dev.toml"@
        } else if a.environmnet@ == "staging"@ {
            "tests.staging.toml"@
        } else if a.environmnet@ == "production"@ {
            "tests.prod.toml"@
        } else {
            "tests.staging.toml"@
        },
    }
}

impl Args {
    /// The fixed argument record used for development runs.
    pub fn dev() -> (a: Self)
        ensures
            a.verbose == true,
            a.environmnet@ == "dev"@,
            a.advertiser_id == Some(424242i32),
            a.external_id == Some(44911i32),
            a.migration_step is None,
            a.toml_config is None,
    {
        Args {
            verbose: true,
            environmnet: String::from_str("dev"),
            advertiser_id: Some(424242),
            external_id: Some(44911),
            migration_step: None,
            toml_config: None,
        }
    }

    /// Resolves which configuration file this argument record selects.
    pub fn get_config_path(&self) -> (r: String)
        ensures
            r@ == spec_config_path(*self),
    {
        match &self.toml_config {
            Some(p) => p.clone(),
            None => {
                if str_eq(self.environmnet.as_str(), "dev") {
                    String::from_str("tests.dev.toml")
                } else if str_eq(self.environmnet.as_str(), "staging") {
                    String::from_str("tests.staging.toml")
                } else if str_eq(self.environmnet.as_str(), "production") {
                    String::from_str("tests.prod.toml")
                } else {
                    String::from_str("tests.staging.toml")
                }
            },
        }
    }
}

/// The body of a successful token-endpoint reply.
#[derive(Debug, Clone)]
pub struct TokenRetrievalBody {
    pub access_token: String,
    pub expires_in: i32,
    pub token_type: String,
    pub scope: String,
}

/// The environment named by an environment string, with the name of the
/// variable holding its client secret; `None` for an unknown name.
pub open spec fn spec_environment_for_name(s: Seq<char>) -> Option<(Environment, Seq<char>)> {
    if s == "local"@ {
        Some((Environment::Local, "AWIN_SPRINGFIELD_DEV_CLIENT_SECRET"@))
    } else if s == "dev"@ {
        Some((Environment::Dev, "AWIN_SPRINGFIELD_DEV_CLIENT_SECRET"@))
    } else if s == "staging"@ {
        Some((Environment::Staging, "AWIN_SPRINGFIELD_STAGING_CLIENT_SECRET"@))
    } else if s == "production"@ {
        Some((Environment::Production, "AWIN_SPRINGFIELD_PRODUCTION_CLIENT_SECRET"@))
    } else {
        None
    }
}

/// Maps an environment name to the environment and its secret variable.
pub fn environment_for_name(name: &str) -> (r: Option<(Environment, String)>)
    ensures
        r is Some <==> spec_environment_for_name(name@) is Some,
        r matches Some(p) ==> (spec_environment_for_name(name@) matches Some(q) && q.0 == p.0
            && q.1 == p.1@),
{
    if str_eq(name, "local") {
        Some((Environment::Local, String::from_str("AWIN_SPRINGFIELD_DEV_CLIENT_SECRET")))
    } else if str_eq(name, "dev") {
        Some((Environment::Dev, String::from_str("AWIN_SPRINGFIELD_DEV_CLIENT_SECRET")))
    } else if str_eq(name, "staging") {
        Some((Environment::Staging, String::from_str("AWIN_SPRINGFIELD_STAGING_CLIENT_SECRET")))
    } else if str_eq(name, "production") {
        Some(
            (Environment::Production, String::from_str("AWIN_SPRINGFIELD_PRODUCTION_CLIENT_SECRET")),
        )
    } else {
        None
    }
}

/// The token endpoint for an environment; `None` where none is wired up yet
/// (staging and production retrieval is not implemented).
pub fn token_url(env: &Environment) -> (r: Option<&'static str>)
    ensures
        match env {
            Environment::Local | Environment::Dev => r matches Some(u) && u@
                == "http://ui.d-lhr1-docker-026.dev.awin.com/idpbackend/token"@,
            Environment::Staging | Environment::Production => r is None,
        },
{
    match env {
        Environment::Local => Some("http://ui.d-lhr1-docker-026.dev.awin.com/idpbackend/token"),
        Environment::Dev => Some("http://ui.d-lhr1-docker-026.dev.awin.com/idpbackend/token"),
        Environment::Staging => None,
        Environment::Production => None,
    }
}

/// The bearer token a token-endpoint exchange yields: the reply's access
/// token on success, and the empty string when the HTTP status was not
/// successful or the body could not be parsed.
pub fn token_from_response(status_success: bool, body: Option<TokenRetrievalBody>) -> (t: String)
    ensures
        !status_success ==> t@ == Seq::<char>::empty(),
        status_success && body is None ==> t@ == Seq::<char>::empty(),
        status_success ==> (body matches Some(b) ==> t == b.access_token),
{
    if !status_success {
        String::new()
    } else {
        match body {
            Some(b) => b.access_token,
            None => String::new(),
        }
    }
}

} // verus!
