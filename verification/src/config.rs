//! Checking the loaded configuration and splitting it into the server
//! credentials and the synchronisation settings.
use vstd::prelude::*;

pub use crate::models::{ConflictStrategy, ConversionPriority, Format};
use crate::models::{ApiConfig, SyncConfig};

verus! {

/// The configuration as read from the files and the environment; every
/// entry may be missing.
pub struct Config {
    pub url: Option<String>,
    pub user: Option<String>,
    pub password: Option<String>,
    pub navidrome_dir: Option<String>,
    pub local_dir: Option<String>,
    pub dest_dir: Option<String>,
    pub format: Option<Format>,
    pub on_conflict: Option<ConflictStrategy>,
    pub priority: Option<ConversionPriority>,
    pub whitelist: Option<Vec<String>>,
    pub blacklist: Option<Vec<String>>,
}

/// The entries that a configuration must have.
#[derive(Clone, Copy, Debug, PartialEq, Eq, Structural)]
pub enum RequiredParameter {
    Url,
    User,
    Password,
    NavidromeDir,
    LocalDir,
    DestDir,
}

/// Why a configuration is refused.
#[derive(Clone, Copy, Debug, PartialEq, Eq, Structural)]
pub enum ConfigError {
    /// A required entry is missing.
    Missing(RequiredParameter),
    /// Both a whitelist and a blacklist are given.
    BothLists,
}

/// The name under which a required entry is configured.
pub open spec fn parameter_name(p: RequiredParameter) -> Seq<char> {
    match p {
        RequiredParameter::Url => "url"@,
        RequiredParameter::User => "user"@,
        RequiredParameter::Password => "password"@,
        RequiredParameter::NavidromeDir => "navidrome_dir"@,
        RequiredParameter::LocalDir => "local_dir"@,
        RequiredParameter::DestDir => "dest_dir"@,
    }
}

/// The message that reports a refused configuration.
pub open spec fn config_error_message(e: ConfigError) -> Seq<char> {
    match e {
        ConfigError::Missing(p) => "Missing required parameter: "@ + parameter_name(p),
        ConfigError::BothLists => "Cannot use both whitelist and blacklist at the same time."@,
    }
}

impl RequiredParameter {
    /// The name under which the entry is configured.
    pub fn name(&self) -> (n: &'static str)
        ensures
            n@ == parameter_name(*self),
    {
        match self {
            RequiredParameter::Url => "url",
            RequiredParameter::User => "user",
            RequiredParameter::Password => "password",
            RequiredParameter::NavidromeDir => "navidrome_dir",
            RequiredParameter::LocalDir => "local_dir",
            RequiredParameter::DestDir => "dest_dir",
        }
    }
}

impl ConfigError {
    /// The message that reports the error.
    pub fn message(&self) -> (m: String)
        ensures
            m@ == config_error_message(*self),
    {
        match self {
            ConfigError::Missing(p) => {
                let mut m = "Missing required parameter: ".to_owned();
                m.append(p.name());
                m
            },
            ConfigError::BothLists => "Cannot use both whitelist and blacklist at the same time.".to_owned(),
        }
    }
}

/// The first required entry that `config` lacks, in the order url, user,
/// password, navidrome_dir, local_dir, dest_dir.
pub open spec fn first_missing(config: Config) -> Option<RequiredParameter> {
    if config.url is None {
        Some(RequiredParameter::Url)
    } else if config.user is None {
        Some(RequiredParameter::User)
    } else if config.password is None {
        Some(RequiredParameter::Password)
    } else if config.navidrome_dir is None {
        Some(RequiredParameter::NavidromeDir)
    } else if config.local_dir is None {
        Some(RequiredParameter::LocalDir)
    } else if config.dest_dir is None {
        Some(RequiredParameter::DestDir)
    } else {
        None
    }
}

/// `api` and `sync` carry the entries of `config`: the required ones as
/// given, the strategy defaulting to overwrite, the priority to balance.
pub open spec fn split_config(config: Config, api: ApiConfig, sync: SyncConfig) -> bool {
    &&& api.url == config.url->0
    &&& api.user == config.user->0
    &&& api.password == config.password->0
    &&& sync.navidrome_dir == config.navidrome_dir->0
    &&& sync.local_dir == config.local_dir->0
    &&& sync.dest_dir == config.dest_dir->0
    &&& sync.format == config.format
    &&& sync.on_conflict == match config.on_conflict {
        Some(s) => s,
        None => ConflictStrategy::Overwrite,
    }
    &&& sync.priority == match config.priority {
        Some(p) => p,
        None => ConversionPriority::Balance,
    }
    &&& sync.whitelist == config.whitelist
    &&& sync.blacklist == config.blacklist
}

/// Checks a loaded configuration and splits it into the server credentials
/// and the synchronisation settings. It is refused when a required entry
/// is missing (the first one is reported), and then when it gives both a
/// whitelist and a blacklist.
pub fn get_configs(config: Config) -> (res: Result<(ApiConfig, SyncConfig), ConfigError>)
    ensures
        first_missing(config) matches Some(p) ==> res == Err::<(ApiConfig, SyncConfig), ConfigError>(ConfigError::Missing(p)),
        first_missing(config) is None && config.whitelist is Some && config.blacklist is Some
            ==> res == Err::<(ApiConfig, SyncConfig), ConfigError>(ConfigError::BothLists),
        first_missing(config) is None && !(config.whitelist is Some && config.blacklist is Some)
            ==> (res matches Ok((api, sync)) && split_config(config, api, sync)),
        res matches Ok((_, sync)) ==> !(sync.whitelist is Some && sync.blacklist is Some),
{
    let Config {
        url,
        user,
        password,
        navidrome_dir,
        local_dir,
        dest_dir,
        format,
        on_conflict,
        priority,
        whitelist,
        blacklist,
    } = config;
    let url = match url {
        Some(v) => v,
        None => return Err(ConfigError::Missing(RequiredParameter::Url)),
    };
    let user = match user {
        Some(v) => v,
        None => return Err(ConfigError::Missing(RequiredParameter::User)),
    };
    let password = match password {
        Some(v) => v,
        None => return Err(ConfigError::Missing(RequiredParameter::Password)),
    };
    let navidrome_dir = match navidrome_dir {
        Some(v) => v,
        None => return Err(ConfigError::Missing(RequiredParameter::NavidromeDir)),
    };
    let local_dir = match local_dir {
        Some(v) => v,
        None => return Err(ConfigError::Missing(RequiredParameter::LocalDir)),
    };
    let dest_dir = match dest_dir {
        Some(v) => v,
        None => return Err(ConfigError::Missing(RequiredParameter::DestDir)),
    };
    let on_conflict = match on_conflict {
        Some(s) => s,
        None => ConflictStrategy::Overwrite,
    };
    let priority = match priority {
        Some(p) => p,
        None => ConversionPriority::Balance,
    };
    if whitelist.is_some() && blacklist.is_some() {
        return Err(ConfigError::BothLists);
    }
    let api_config = ApiConfig { url, user, password };
    let sync_config = SyncConfig {
        navidrome_dir,
        local_dir,
        dest_dir,
        format,
        on_conflict,
        priority,
        whitelist,
        blacklist,
    };
    Ok((api_config, sync_config))
}

} // verus!
