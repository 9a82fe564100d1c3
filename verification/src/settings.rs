//! The settings the service reads from its secrets at start-up.

use vstd::prelude::*;

verus! {

/// Where Mercury and the Soroban RPC are, and who the service is to them.
#[derive(Debug, PartialEq, Eq)]
pub struct AppSettings {
    pub mercury_backend_endpoint: String,
    pub mercury_graphql_endpoint: String,
    pub mercury_id: String,
    pub mercury_pwd: String,
    pub rpc_url: String,
    pub network_passphrase: String,
    pub source_account: String,
}

/// The secrets as found in the store (`None` where one is not set), in the
/// order the service looks them up.
#[derive(Debug)]
pub struct Secrets {
    pub mercury_backend_endpoint: Option<String>,
    pub mercury_graphql_endpoint: Option<String>,
    pub mercury_email: Option<String>,
    pub mercury_password: Option<String>,
    pub rpc_url: Option<String>,
    pub network_passphrase: Option<String>,
    pub source_account: Option<String>,
}

/// The message for a secret that is not set.
pub open spec fn missing_secret_message(name: Seq<char>) -> Seq<char> {
    name + " not set in Secrets.toml file"@
}

/// The name of the first secret that is not set, if any.
pub open spec fn first_missing_secret(s: Secrets) -> Option<Seq<char>> {
    if s.mercury_backend_endpoint is None {
        Some("MERCURY_BACKEND_ENDPOINT"@)
    } else if s.mercury_graphql_endpoint is None {
        Some("MERCURY_GRAPHQL_ENDPOINT"@)
    } else if s.mercury_email is None {
        Some("MERCURY_EMAIL"@)
    } else if s.mercury_password is None {
        Some("MERCURY_PASSWORD"@)
    } else if s.rpc_url is None {
        Some("RPC_URL"@)
    } else if s.network_passphrase is None {
        Some("NETWORK_PASSPHRASE"@)
    } else if s.source_account is None {
        Some("SOURCE_ACCOUNT"@)
    } else {
        None
    }
}

fn missing(name: &str) -> (r: Result<AppSettings, String>)
    ensures
        match r {
            Err(m) => m@ == missing_secret_message(name@),
            Ok(_) => false,
        },
{
    Err(String::from_str(name).concat(" not set in Secrets.toml file"))
}

/// Gathers the settings; refuses with a message naming the first secret
/// that is not set.
pub fn settings_from_secrets(s: Secrets) -> (r: Result<AppSettings, String>)
    ensures
        match first_missing_secret(s) {
            Some(name) => match r {
                Err(m) => m@ == missing_secret_message(name),
                Ok(_) => false,
            },
            None => match r {
                Ok(a) => Some(a.mercury_backend_endpoint) == s.mercury_backend_endpoint
                    && Some(a.mercury_graphql_endpoint) == s.mercury_graphql_endpoint
                    && Some(a.mercury_id) == s.mercury_email
                    && Some(a.mercury_pwd) == s.mercury_password
                    && Some(a.rpc_url) == s.rpc_url
                    && Some(a.network_passphrase) == s.network_passphrase
                    && Some(a.source_account) == s.source_account,
                Err(_) => false,
            },
        },
{
    let Some(mercury_backend_endpoint) = s.mercury_backend_endpoint else {
        return missing("MERCURY_BACKEND_ENDPOINT");
    };
    let Some(mercury_graphql_endpoint) = s.mercury_graphql_endpoint else {
        return missing("MERCURY_GRAPHQL_ENDPOINT");
    };
    let Some(mercury_id) = s.mercury_email else {
        return missing("MERCURY_EMAIL");
    };
    let Some(mercury_pwd) = s.mercury_password else {
        return missing("MERCURY_PASSWORD");
    };
    let Some(rpc_url) = s.rpc_url else {
        return missing("RPC_URL");
    };
    let Some(network_passphrase) = s.network_passphrase else {
        return missing("NETWORK_PASSPHRASE");
    };
    let Some(source_account) = s.source_account else {
        return missing("SOURCE_ACCOUNT");
    };
    Ok(AppSettings {
        mercury_backend_endpoint,
        mercury_graphql_endpoint,
        mercury_id,
        mercury_pwd,
        rpc_url,
        network_passphrase,
        source_account,
    })
}

} // verus!
