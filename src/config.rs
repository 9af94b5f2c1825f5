use vstd::prelude::*;

verus! {

/// One of the three settings that a run needs.
#[derive(Clone, Copy, Debug, PartialEq, Eq, Structural)]
pub enum Setting {
    Username,
    Password,
    GatewayUrl,
}

/// Why the settings could not make a configuration.
#[derive(Clone, Copy, Debug, PartialEq, Eq, Structural)]
pub enum ConfigError {
    /// The setting was absent or empty.
    Missing(Setting),
}

impl Setting {
    /// The environment variable that holds the setting.
    pub open spec fn spec_variable(self) -> Seq<char> {
        match self {
            Setting::Username => "USERNAME"@,
            Setting::Password => "PASSWORD"@,
            Setting::GatewayUrl => "DEFAULT_GATEWAY"@,
        }
    }

    pub fn variable(&self) -> (r: &'static str)
        ensures
            r@ == self.spec_variable(),
    {
        match self {
            Setting::Username => "USERNAME",
            Setting::Password => "PASSWORD",
            Setting::GatewayUrl => "DEFAULT_GATEWAY",
        }
    }
}

/// The settings of a run as sequences of characters.
pub struct ConfigView {
    pub username: Seq<char>,
    pub password: Seq<char>,
    pub gateway_url: Seq<char>,
}

impl ConfigView {
    pub open spec fn wf(self) -> bool {
        &&& self.username.len() > 0
        &&& self.password.len() > 0
        &&& self.gateway_url.len() > 0
    }
}

/// The credentials and the address of the router's administration page,
/// each of them non-empty.
pub struct Config {
    username: String,
    password: String,
    gateway_url: String,
}

impl View for Config {
    type V = ConfigView;

    closed spec fn view(&self) -> ConfigView {
        ConfigView {
            username: self.username@,
            password: self.password@,
            gateway_url: self.gateway_url@,
        }
    }
}

/// A setting counts as given when it is present and not empty.
pub open spec fn given(v: Option<String>) -> bool {
    v matches Some(s) && s@.len() > 0
}

/// The first setting, in the order username, password, gateway address,
/// that is not given.
pub open spec fn first_missing(
    username: Option<String>,
    password: Option<String>,
    gateway_url: Option<String>,
) -> Option<Setting> {
    if !given(username) {
        Some(Setting::Username)
    } else if !given(password) {
        Some(Setting::Password)
    } else if !given(gateway_url) {
        Some(Setting::GatewayUrl)
    } else {
        None
    }
}

fn take_given(v: Option<String>) -> (r: Option<String>)
    ensures
        given(v) <==> r is Some,
        r matches Some(s) ==> v == Some(s),
{
    match v {
        Some(s) => {
            if s.as_str().is_empty() {
                None
            } else {
                Some(s)
            }
        },
        None => None,
    }
}

impl Config {
    /// Builds the configuration from the three settings as they were found,
    /// `None` standing for one that is not set. Fails, naming the first
    /// setting that is absent or empty, when any of them is.
    pub fn from_values(
        username: Option<String>,
        password: Option<String>,
        gateway_url: Option<String>,
    ) -> (r: Result<Config, ConfigError>)
        ensures
            first_missing(username, password, gateway_url) matches Some(s) ==> r == Err::<
                Config,
                ConfigError,
            >(ConfigError::Missing(s)),
            first_missing(username, password, gateway_url) is None ==> (r matches Ok(c) && c@
                == (ConfigView {
                username: username->0@,
                password: password->0@,
                gateway_url: gateway_url->0@,
            })),
            r matches Ok(c) ==> c@.wf(),
    {
        let u = take_given(username);
        let u = match u {
            Some(u) => u,
            None => { return Err(ConfigError::Missing(Setting::Username)); },
        };
        let p = take_given(password);
        let p = match p {
            Some(p) => p,
            None => { return Err(ConfigError::Missing(Setting::Password)); },
        };
        let g = take_given(gateway_url);
        let g = match g {
            Some(g) => g,
            None => { return Err(ConfigError::Missing(Setting::GatewayUrl)); },
        };
        Ok(Config { username: u, password: p, gateway_url: g })
    }

    pub fn username(&self) -> (r: &str)
        ensures
            r@ == self@.username,
    {
        self.username.as_str()
    }

    pub fn password(&self) -> (r: &str)
        ensures
            r@ == self@.password,
    {
        self.password.as_str()
    }

    pub fn gateway_url(&self) -> (r: &str)
        ensures
            r@ == self@.gateway_url,
    {
        self.gateway_url.as_str()
    }
}

} // verus!
