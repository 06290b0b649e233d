//! Environment-driven configuration: the upstream base URLs, the client
//! identifier and the two authentication tokens. The values are read from
//! the process environment outside the library and validated here.

use vstd::prelude::*;

verus! {

/// The configuration the gateway needs to reach the upstream API: the REST
/// base URL, the drive (image store) base URL, the client identifier, and
/// the session and drive tokens.
#[derive(Debug, Clone)]
pub struct ApiConfig {
    pub api_url: String,
    pub drive_url: String,
    pub client_id: String,
    pub wp_token: String,
    pub drive_token: String,
}

/// Which configuration variable was absent from the environment.
#[derive(Debug, Clone, Copy, PartialEq, Eq, Structural)]
pub enum ConfigError {
    MissingApiUrl,
    MissingDriveUrl,
    MissingClientId,
    MissingWpToken,
    MissingDriveToken,
}

/// The diagnostic text for a missing configuration variable.
pub open spec fn config_error_text(e: ConfigError) -> Seq<char> {
    match e {
        ConfigError::MissingApiUrl => "API_URL not found in environment"@,
        ConfigError::MissingDriveUrl => "DRIVE_URL not found in environment"@,
        ConfigError::MissingClientId => "CLIENT_ID not found in environment"@,
        ConfigError::MissingWpToken => "WP_TOKEN not found in environment"@,
        ConfigError::MissingDriveToken => "DRIVE_TOKEN not found in environment"@,
    }
}

impl ConfigError {
    /// The diagnostic text for this error.
    pub fn message(&self) -> (r: String)
        ensures
            r@ == config_error_text(*self),
    {
        match self {
            ConfigError::MissingApiUrl => String::from_str("API_URL not found in environment"),
            ConfigError::MissingDriveUrl => String::from_str("DRIVE_URL not found in environment"),
            ConfigError::MissingClientId => String::from_str("CLIENT_ID not found in environment"),
            ConfigError::MissingWpToken => String::from_str("WP_TOKEN not found in environment"),
            ConfigError::MissingDriveToken => String::from_str(
                "DRIVE_TOKEN not found in environment",
            ),
        }
    }
}

impl ApiConfig {
    /// Assembles the configuration from the values found in the environment,
    /// in the order the variables are looked up: the first absent one is
    /// reported.
    pub fn from_parts(
        api_url: Option<String>,
        drive_url: Option<String>,
        client_id: Option<String>,
        wp_token: Option<String>,
        drive_token: Option<String>,
    ) -> (r: Result<ApiConfig, ConfigError>)
        ensures
            r is Ok <==> (api_url is Some && drive_url is Some && client_id is Some
                && wp_token is Some && drive_token is Some),
            api_url is None ==> r == Err::<ApiConfig, ConfigError>(ConfigError::MissingApiUrl),
            api_url is Some && drive_url is None ==> r == Err::<ApiConfig, ConfigError>(
                ConfigError::MissingDriveUrl,
            ),
            api_url is Some && drive_url is Some && client_id is None ==> r == Err::<
                ApiConfig,
                ConfigError,
            >(ConfigError::MissingClientId),
            api_url is Some && drive_url is Some && client_id is Some && wp_token is None ==> r
                == Err::<ApiConfig, ConfigError>(ConfigError::MissingWpToken),
            api_url is Some && drive_url is Some && client_id is Some && wp_token is Some
                && drive_token is None ==> r == Err::<ApiConfig, ConfigError>(
                ConfigError::MissingDriveToken,
            ),
            r matches Ok(c) ==> c.api_url@ == api_url->0@ && c.drive_url@ == drive_url->0@
                && c.client_id@ == client_id->0@ && c.wp_token@ == wp_token->0@ && c.drive_token@
                == drive_token->0@,
    {
        let api_url = match api_url {
            Some(v) => v,
            None => {
                return Err(ConfigError::MissingApiUrl);
            },
        };
        let drive_url = match drive_url {
            Some(v) => v,
            None => {
                return Err(ConfigError::MissingDriveUrl);
            },
        };
        let client_id = match client_id {
            Some(v) => v,
            None => {
                return Err(ConfigError::MissingClientId);
            },
        };
        let wp_token = match wp_token {
            Some(v) => v,
            None => {
                return Err(ConfigError::MissingWpToken);
            },
        };
        let drive_token = match drive_token {
            Some(v) => v,
            None => {
                return Err(ConfigError::MissingDriveToken);
            },
        };
        Ok(ApiConfig { api_url, drive_url, client_id, wp_token, drive_token })
    }
}

} // verus!
