//! Process configuration: which kind of backend client to run, and the
//! settings that kind needs.

use vstd::prelude::*;

verus! {

/// How the backend is reached.
#[derive(Clone, Copy, Debug, PartialEq, Eq, Structural)]
pub enum ClientType {
    Http,
    Cloud,
    Persistent,
    Ephemeral,
}

/// The settings the server starts with. Paths are held as their text.
#[derive(Debug)]
pub struct Config {
    pub client_type: ClientType,
    pub data_dir: Option<String>,
    pub host: Option<String>,
    pub port: Option<u16>,
    pub custom_auth_credentials: Option<String>,
    pub tenant: Option<String>,
    pub database: Option<String>,
    pub api_key: Option<String>,
    pub ssl: bool,
    pub dotenv_path: String,
}

/// A setting that the selected client kind needs and that is not given.
#[derive(Clone, Copy, Debug, PartialEq, Eq, Structural)]
pub enum ConfigError {
    MissingHost,
    MissingTenant,
    MissingDatabase,
    MissingApiKey,
    MissingDataDir,
}

/// The first setting that the configuration's client kind needs and lacks.
pub open spec fn missing_setting(c: Config) -> Option<ConfigError> {
    match c.client_type {
        ClientType::Http => if c.host is None {
            Some(ConfigError::MissingHost)
        } else {
            None
        },
        ClientType::Cloud => if c.tenant is None {
            Some(ConfigError::MissingTenant)
        } else if c.database is None {
            Some(ConfigError::MissingDatabase)
        } else if c.api_key is None {
            Some(ConfigError::MissingApiKey)
        } else {
            None
        },
        ClientType::Persistent => if c.data_dir is None {
            Some(ConfigError::MissingDataDir)
        } else {
            None
        },
        ClientType::Ephemeral => None,
    }
}

impl ConfigError {
    pub fn message(&self) -> (r: String)
        ensures
            r@ == match self {
                ConfigError::MissingHost => "Host must be provided for HTTP client"@,
                ConfigError::MissingTenant => "Tenant must be provided for cloud client"@,
                ConfigError::MissingDatabase => "Database must be provided for cloud client"@,
                ConfigError::MissingApiKey => "API key must be provided for cloud client"@,
                ConfigError::MissingDataDir => "Data directory must be provided for persistent client"@,
            },
    {
        match self {
            ConfigError::MissingHost => "Host must be provided for HTTP client".to_owned(),
            ConfigError::MissingTenant => "Tenant must be provided for cloud client".to_owned(),
            ConfigError::MissingDatabase => "Database must be provided for cloud client".to_owned(),
            ConfigError::MissingApiKey => "API key must be provided for cloud client".to_owned(),
            ConfigError::MissingDataDir => "Data directory must be provided for persistent client".to_owned(),
        }
    }
}

impl Config {
    /// Checks that the settings the client kind needs are all given.
    pub fn validate(&self) -> (r: Result<(), ConfigError>)
        ensures
            r is Ok <==> missing_setting(*self) is None,
            r matches Err(e) ==> missing_setting(*self) == Some(e),
    {
        match self.client_type {
            ClientType::Http => {
                if self.host.is_none() {
                    return Err(ConfigError::MissingHost);
                }
            },
            ClientType::Cloud => {
                if self.tenant.is_none() {
                    return Err(ConfigError::MissingTenant);
                }
                if self.database.is_none() {
                    return Err(ConfigError::MissingDatabase);
                }
                if self.api_key.is_none() {
                    return Err(ConfigError::MissingApiKey);
                }
            },
            ClientType::Persistent => {
                if self.data_dir.is_none() {
                    return Err(ConfigError::MissingDataDir);
                }
            },
            ClientType::Ephemeral => {},
        }
        Ok(())
    }
}

} // verus!
