//! Settings read from the process environment.
use vstd::prelude::*;
use vstd::string::*;
use crate::text::{
    chars_of, has_prefix, parse_bool, parse_bool_spec, parse_u16, parse_u16_spec, range_has_prefix,
    IntParseError, decimal, law_parse_u16_reads_decimal,
};

verus! {

broadcast use vstd::string::group_string_axioms;

/// Configuration type.
/// Holds required configuration values.
#[derive(Clone)]
pub struct Config {
    pub database_url: String,
    pub redis_url: String,
    pub mqtt_url: String,
    pub mqtt_client: String,
    pub mqtt_username: String,
    pub mqtt_password: String,
    pub mqtt_secure: bool,
    pub mqtt_ca_crt: Option<String>,
    pub mqtt_port: u16,
    pub jwt_secret: String,
    pub google_api_key: String,
}

/// The environment variables that configuration reads: each is the
/// variable's value when it is set to valid Unicode, `None` otherwise.
pub struct ConfigVars {
    pub database_url: Option<String>,
    pub redis_url: Option<String>,
    pub mqtt_url: Option<String>,
    pub mqtt_client: Option<String>,
    pub mqtt_username: Option<String>,
    pub mqtt_password: Option<String>,
    pub mqtt_secure: Option<String>,
    pub mqtt_ca_crt: Option<String>,
    pub mqtt_port: Option<String>,
    pub jwt_secret: Option<String>,
    pub google_api_key: Option<String>,
}

/// A required configuration variable.
#[derive(PartialEq, Eq, Structural, Clone, Copy, Debug)]
pub enum ConfigVar {
    DatabaseUrl,
    RedisUrl,
    MqttUrl,
    MqttClient,
    MqttUsername,
    MqttPassword,
    MqttPort,
    JwtSecret,
    GoogleApiKey,
}

/// Why configuration could not be loaded.
#[derive(PartialEq, Eq, Structural, Clone, Copy, Debug)]
pub enum ConfigError {
    /// `MQTT_SECURE` is set but is neither `true` nor `false`.
    InvalidMqttSecure,
    /// TLS is on and `MQTT_CA_CRT` is not set.
    MissingMqttCaCrt,
    /// A required variable is not set.
    Missing(ConfigVar),
    /// `MQTT_PORT` is not a `u16`.
    InvalidMqttPort(IntParseError),
}

/// The name of a configuration variable in the environment.
pub open spec fn var_name(v: ConfigVar) -> Seq<char> {
    match v {
        ConfigVar::DatabaseUrl => "DATABASE_URL"@,
        ConfigVar::RedisUrl => "REDIS_URL"@,
        ConfigVar::MqttUrl => "MQTT_URL"@,
        ConfigVar::MqttClient => "MQTT_CLIENT"@,
        ConfigVar::MqttUsername => "MQTT_USERNAME"@,
        ConfigVar::MqttPassword => "MQTT_PASSWORD"@,
        ConfigVar::MqttPort => "MQTT_PORT"@,
        ConfigVar::JwtSecret => "JWT_SECRET"@,
        ConfigVar::GoogleApiKey => "GOOGLE_API_KEY"@,
    }
}

/// The text of an integer parse failure, as `ParseIntError` displays it.
pub open spec fn int_error_text(k: IntParseError) -> Seq<char> {
    match k {
        IntParseError::Empty => "cannot parse integer from empty string"@,
        IntParseError::InvalidDigit => "invalid digit found in string"@,
        IntParseError::PosOverflow => "number too large to fit in target type"@,
    }
}

/// The message each configuration error reports.
pub open spec fn config_error_text(e: ConfigError) -> Seq<char> {
    match e {
        ConfigError::InvalidMqttSecure => "MQTT_SECURE must be a boolean (true/false)"@,
        ConfigError::MissingMqttCaCrt => "MQTT_CA_CRT must be set when MQTT_SECURE is true"@,
        ConfigError::Missing(v) => var_name(v) + " must be set"@,
        ConfigError::InvalidMqttPort(k) => int_error_text(k),
    }
}

/// Whether TLS is asked for: `MQTT_SECURE` defaults to `true` when unset.
pub open spec fn secure_setting(v: &ConfigVars) -> Option<bool> {
    match v.mqtt_secure {
        None => Some(true),
        Some(s) => parse_bool_spec(s@),
    }
}

/// The first check that configuration fails, in the order the variables are read.
pub open spec fn first_config_error(v: &ConfigVars) -> Option<ConfigError> {
    if secure_setting(v) is None {
        Some(ConfigError::InvalidMqttSecure)
    } else if secure_setting(v) == Some(true) && v.mqtt_ca_crt is None {
        Some(ConfigError::MissingMqttCaCrt)
    } else if v.database_url is None {
        Some(ConfigError::Missing(ConfigVar::DatabaseUrl))
    } else if v.redis_url is None {
        Some(ConfigError::Missing(ConfigVar::RedisUrl))
    } else if v.mqtt_url is None {
        Some(ConfigError::Missing(ConfigVar::MqttUrl))
    } else if v.mqtt_client is None {
        Some(ConfigError::Missing(ConfigVar::MqttClient))
    } else if v.mqtt_username is None {
        Some(ConfigError::Missing(ConfigVar::MqttUsername))
    } else if v.mqtt_password is None {
        Some(ConfigError::Missing(ConfigVar::MqttPassword))
    } else if v.mqtt_port is None {
        Some(ConfigError::Missing(ConfigVar::MqttPort))
    } else if parse_u16_spec(v.mqtt_port->0@) is Err {
        Some(ConfigError::InvalidMqttPort(parse_u16_spec(v.mqtt_port->0@)->Err_0))
    } else if v.jwt_secret is None {
        Some(ConfigError::Missing(ConfigVar::JwtSecret))
    } else if v.google_api_key is None {
        Some(ConfigError::Missing(ConfigVar::GoogleApiKey))
    } else {
        None
    }
}

/// A loaded configuration holds exactly what the variables say.
pub open spec fn config_matches(c: &Config, v: &ConfigVars) -> bool {
    &&& v.database_url matches Some(s) && c.database_url@ == s@
    &&& v.redis_url matches Some(s) && c.redis_url@ == s@
    &&& v.mqtt_url matches Some(s) && c.mqtt_url@ == s@
    &&& v.mqtt_client matches Some(s) && c.mqtt_client@ == s@
    &&& v.mqtt_username matches Some(s) && c.mqtt_username@ == s@
    &&& v.mqtt_password matches Some(s) && c.mqtt_password@ == s@
    &&& secure_setting(v) == Some(c.mqtt_secure)
    &&& c.mqtt_ca_crt == v.mqtt_ca_crt
    &&& v.mqtt_port matches Some(s) && parse_u16_spec(s@) == Ok::<u16, IntParseError>(c.mqtt_port)
    &&& v.jwt_secret matches Some(s) && c.jwt_secret@ == s@
    &&& v.google_api_key matches Some(s) && c.google_api_key@ == s@
}

impl ConfigError {
    /// The message this error reports.
    pub fn message(&self) -> (m: String)
        ensures
            m@ == config_error_text(*self),
    {
        match self {
            ConfigError::InvalidMqttSecure => String::from_str(
                "MQTT_SECURE must be a boolean (true/false)",
            ),
            ConfigError::MissingMqttCaCrt => String::from_str(
                "MQTT_CA_CRT must be set when MQTT_SECURE is true",
            ),
            ConfigError::Missing(v) => {
                let name = var_name_text(*v);
                String::from_str(name).concat(" must be set")
            },
            ConfigError::InvalidMqttPort(k) => String::from_str(int_error_message(*k)),
        }
    }
}

/// The name of a configuration variable in the environment.
pub fn var_name_text(v: ConfigVar) -> (s: &'static str)
    ensures
        s@ == var_name(v),
{
    match v {
        ConfigVar::DatabaseUrl => "DATABASE_URL",
        ConfigVar::RedisUrl => "REDIS_URL",
        ConfigVar::MqttUrl => "MQTT_URL",
        ConfigVar::MqttClient => "MQTT_CLIENT",
        ConfigVar::MqttUsername => "MQTT_USERNAME",
        ConfigVar::MqttPassword => "MQTT_PASSWORD",
        ConfigVar::MqttPort => "MQTT_PORT",
        ConfigVar::JwtSecret => "JWT_SECRET",
        ConfigVar::GoogleApiKey => "GOOGLE_API_KEY",
    }
}

/// The text of an integer parse failure.
pub fn int_error_message(k: IntParseError) -> (s: &'static str)
    ensures
        s@ == int_error_text(k),
{
    match k {
        IntParseError::Empty => "cannot parse integer from empty string",
        IntParseError::InvalidDigit => "invalid digit found in string",
        IntParseError::PosOverflow => "number too large to fit in target type",
    }
}

impl Config {
    /// Load configuration from the environment's values.
    /// Returns an error if any required variable is missing.
    pub fn from_env(vars: ConfigVars) -> (r: Result<Config, ConfigError>)
        ensures
            r is Err <==> first_config_error(&vars) is Some,
            r matches Err(e) ==> first_config_error(&vars) == Some(e),
            r matches Ok(c) ==> config_matches(&c, &vars),
            r matches Ok(c) ==> (vars.mqtt_secure is None ==> c.mqtt_secure),
            r matches Ok(c) ==> (vars.mqtt_secure matches Some(s) ==> (c.mqtt_secure <==> s@
                == "true"@)),
            vars.mqtt_secure matches Some(s) ==> (s@ != "true"@ && s@ != "false"@ ==> r
                == Err::<Config, ConfigError>(ConfigError::InvalidMqttSecure)),
            r matches Ok(c) ==> (vars.mqtt_port matches Some(s) ==> (parse_u16_spec(s@) matches Ok(
                p,
            ) ==> c.mqtt_port == p)),
    {
        proof {
            reveal_strlit("true");
            reveal_strlit("false");
        }
        let mqtt_secure = match &vars.mqtt_secure {
            None => true,
            Some(s) => match parse_bool(s.as_str()) {
                Some(b) => b,
                None => return Err(ConfigError::InvalidMqttSecure),
            },
        };
        if mqtt_secure && vars.mqtt_ca_crt.is_none() {
            return Err(ConfigError::MissingMqttCaCrt);
        }
        let ConfigVars {
            database_url,
            redis_url,
            mqtt_url,
            mqtt_client,
            mqtt_username,
            mqtt_password,
            mqtt_secure: _,
            mqtt_ca_crt,
            mqtt_port,
            jwt_secret,
            google_api_key,
        } = vars;
        let database_url = match database_url {
            Some(s) => s,
            None => return Err(ConfigError::Missing(ConfigVar::DatabaseUrl)),
        };
        let redis_url = match redis_url {
            Some(s) => s,
            None => return Err(ConfigError::Missing(ConfigVar::RedisUrl)),
        };
        let mqtt_url = match mqtt_url {
            Some(s) => s,
            None => return Err(ConfigError::Missing(ConfigVar::MqttUrl)),
        };
        let mqtt_client = match mqtt_client {
            Some(s) => s,
            None => return Err(ConfigError::Missing(ConfigVar::MqttClient)),
        };
        let mqtt_username = match mqtt_username {
            Some(s) => s,
            None => return Err(ConfigError::Missing(ConfigVar::MqttUsername)),
        };
        let mqtt_password = match mqtt_password {
            Some(s) => s,
            None => return Err(ConfigError::Missing(ConfigVar::MqttPassword)),
        };
        let mqtt_port = match mqtt_port {
            Some(s) => match parse_u16(s.as_str()) {
                Ok(p) => p,
                Err(k) => return Err(ConfigError::InvalidMqttPort(k)),
            },
            None => return Err(ConfigError::Missing(ConfigVar::MqttPort)),
        };
        let jwt_secret = match jwt_secret {
            Some(s) => s,
            None => return Err(ConfigError::Missing(ConfigVar::JwtSecret)),
        };
        let google_api_key = match google_api_key {
            Some(s) => s,
            None => return Err(ConfigError::Missing(ConfigVar::GoogleApiKey)),
        };
        Ok(Config {
            database_url,
            redis_url,
            mqtt_url,
            mqtt_client,
            mqtt_username,
            mqtt_password,
            mqtt_secure,
            mqtt_ca_crt,
            mqtt_port,
            jwt_secret,
            google_api_key,
        })
    }
}

/// A database address with the `mariadb://` scheme spelled `mysql://`.
pub open spec fn normalized_database_url(url: Seq<char>) -> Seq<char> {
    if has_prefix(url, "mariadb://"@) {
        "mysql://"@ + url.subrange("mariadb://"@.len() as int, url.len() as int)
    } else {
        url
    }
}

/// Rewrites a `mariadb://` address to the `mysql://` scheme the driver accepts.
pub fn normalize_database_url(url: &str) -> (r: String)
    ensures
        r@ == normalized_database_url(url@),
{
    let v = chars_of(url);
    let scheme = chars_of("mariadb://");
    proof {
        reveal_strlit("mariadb://");
    }
    assert(v@.subrange(0, v@.len() as int) =~= v@);
    if range_has_prefix(&v, 0, v.len(), &scheme) {
        let rest = url.substring_char(scheme.len(), v.len());
        String::from_str("mysql://").concat(rest)
    } else {
        url.to_owned()
    }
}

/// The environment variables the server reads at start-up, each the
/// variable's value when set to valid Unicode.
pub struct ServerVars {
    pub redis_url: Option<String>,
    pub rocket_port: Option<String>,
    pub mqtt_url: Option<String>,
    pub mqtt_port: Option<String>,
    pub mqtt_client: Option<String>,
    pub mqtt_secure: Option<String>,
    pub mqtt_username: Option<String>,
    pub mqtt_password: Option<String>,
    pub mqtt_topic: Option<String>,
}

/// Settings of the web server and its MQTT link.
pub struct ServerSettings {
    pub redis_url: String,
    pub rocket_port: u16,
    pub mqtt_host: String,
    pub mqtt_port: u16,
    pub mqtt_client: String,
    pub mqtt_use_tls: bool,
    pub mqtt_username: String,
    pub mqtt_password: String,
    pub mqtt_topic: String,
}

/// Why the server settings could not be read.
#[derive(PartialEq, Eq, Structural, Clone, Copy, Debug)]
pub enum ServerSettingsError {
    MissingRedisUrl,
    MissingRocketPort,
    InvalidRocketPort(IntParseError),
}

/// The message each server settings error reports.
pub open spec fn server_error_text(e: ServerSettingsError) -> Seq<char> {
    match e {
        ServerSettingsError::MissingRedisUrl => "REDIS_URL environment variable is not set"@,
        ServerSettingsError::MissingRocketPort => "ROCKET_PORT environment variable is not set"@,
        ServerSettingsError::InvalidRocketPort(k) => "Failed to parse ROCKET_PORT as u16: "@
            + int_error_text(k),
    }
}

/// An optional text, or a default when absent.
pub open spec fn text_or(o: Option<String>, default: Seq<char>) -> Seq<char> {
    match o {
        Some(s) => s@,
        None => default,
    }
}

/// A port number read from an optional text, falling back to a default
/// when the text is absent or not a `u16`.
pub open spec fn port_or(o: Option<String>, default: u16) -> u16 {
    match o {
        Some(s) => match parse_u16_spec(s@) {
            Ok(p) => p,
            Err(_) => default,
        },
        None => default,
    }
}

/// A flag read from an optional text, `false` when absent or not a boolean.
pub open spec fn flag_or_false(o: Option<String>) -> bool {
    match o {
        Some(s) => parse_bool_spec(s@) == Some(true),
        None => false,
    }
}

impl ServerSettingsError {
    /// The message this error reports.
    pub fn message(&self) -> (m: String)
        ensures
            m@ == server_error_text(*self),
    {
        match self {
            ServerSettingsError::MissingRedisUrl => String::from_str(
                "REDIS_URL environment variable is not set",
            ),
            ServerSettingsError::MissingRocketPort => String::from_str(
                "ROCKET_PORT environment variable is not set",
            ),
            ServerSettingsError::InvalidRocketPort(k) => String::from_str(
                "Failed to parse ROCKET_PORT as u16: ",
            ).concat(int_error_message(*k)),
        }
    }
}

/// An optional text, or a default when absent.
fn text_or_default(o: Option<String>, default: &str) -> (s: String)
    ensures
        s@ == text_or(o, default@),
{
    match o {
        Some(s) => s,
        None => default.to_owned(),
    }
}

impl ServerSettings {
    /// Reads the server settings: `REDIS_URL` and a valid `ROCKET_PORT` are
    /// required; the MQTT settings fall back to their defaults.
    pub fn from_vars(vars: ServerVars) -> (r: Result<ServerSettings, ServerSettingsError>)
        ensures
            r matches Err(e) ==> (match e {
                ServerSettingsError::MissingRedisUrl => vars.redis_url is None,
                ServerSettingsError::MissingRocketPort => vars.redis_url is Some
                    && vars.rocket_port is None,
                ServerSettingsError::InvalidRocketPort(k) => vars.redis_url is Some
                    && vars.rocket_port is Some && parse_u16_spec(vars.rocket_port->0@) == Err::<
                    u16,
                    IntParseError,
                >(k),
            }),
            r is Ok <==> (vars.redis_url is Some && vars.rocket_port is Some && parse_u16_spec(
                vars.rocket_port->0@,
            ) is Ok),
            r matches Ok(s) ==> {
                &&& s.redis_url@ == vars.redis_url->0@
                &&& Ok::<u16, IntParseError>(s.rocket_port) == parse_u16_spec(vars.rocket_port->0@)
                &&& s.mqtt_host@ == text_or(vars.mqtt_url, "localhost"@)
                &&& s.mqtt_port == port_or(vars.mqtt_port, 1883)
                &&& s.mqtt_client@ == text_or(vars.mqtt_client, "poolcar_backend"@)
                &&& s.mqtt_use_tls == flag_or_false(vars.mqtt_secure)
                &&& s.mqtt_username@ == text_or(vars.mqtt_username, "poolcar"@)
                &&& s.mqtt_password@ == text_or(vars.mqtt_password, "poolcar"@)
                &&& s.mqtt_topic@ == text_or(vars.mqtt_topic, "poolcar/+"@)
            },
            r matches Ok(st) ==> {
                &&& vars.mqtt_port is None ==> st.mqtt_port == 1883
                &&& vars.mqtt_port matches Some(p) ==> (parse_u16_spec(p@) matches Ok(n)
                    ==> st.mqtt_port == n)
                &&& vars.mqtt_port matches Some(p) ==> (parse_u16_spec(p@) is Err
                    ==> st.mqtt_port == 1883)
                &&& vars.mqtt_secure matches Some(f) ==> (st.mqtt_use_tls <==> f@ == "true"@)
                &&& vars.mqtt_secure is None ==> !st.mqtt_use_tls
                &&& vars.mqtt_url matches Some(u) ==> st.mqtt_host@ == u@
                &&& vars.mqtt_url is None ==> st.mqtt_host@ == "localhost"@
                &&& vars.mqtt_client matches Some(u) ==> st.mqtt_client@ == u@
                &&& vars.mqtt_client is None ==> st.mqtt_client@ == "poolcar_backend"@
                &&& vars.mqtt_username matches Some(u) ==> st.mqtt_username@ == u@
                &&& vars.mqtt_username is None ==> st.mqtt_username@ == "poolcar"@
                &&& vars.mqtt_password matches Some(u) ==> st.mqtt_password@ == u@
                &&& vars.mqtt_password is None ==> st.mqtt_password@ == "poolcar"@
                &&& vars.mqtt_topic matches Some(u) ==> st.mqtt_topic@ == u@
                &&& vars.mqtt_topic is None ==> st.mqtt_topic@ == "poolcar/+"@
            },
    {
        proof {
            reveal_strlit("true");
            reveal_strlit("false");
        }
        let ServerVars {
            redis_url,
            rocket_port,
            mqtt_url,
            mqtt_port,
            mqtt_client,
            mqtt_secure,
            mqtt_username,
            mqtt_password,
            mqtt_topic,
        } = vars;
        let redis_url = match redis_url {
            Some(s) => s,
            None => return Err(ServerSettingsError::MissingRedisUrl),
        };
        let rocket_port = match rocket_port {
            Some(s) => match parse_u16(s.as_str()) {
                Ok(p) => p,
                Err(k) => return Err(ServerSettingsError::InvalidRocketPort(k)),
            },
            None => return Err(ServerSettingsError::MissingRocketPort),
        };
        let mqtt_port = match mqtt_port {
            Some(s) => match parse_u16(s.as_str()) {
                Ok(p) => p,
                Err(_) => 1883,
            },
            None => 1883,
        };
        let mqtt_use_tls = match mqtt_secure {
            Some(s) => match parse_bool(s.as_str()) {
                Some(b) => b,
                None => false,
            },
            None => false,
        };
        Ok(ServerSettings {
            redis_url,
            rocket_port,
            mqtt_host: text_or_default(mqtt_url, "localhost"),
            mqtt_port,
            mqtt_client: text_or_default(mqtt_client, "poolcar_backend"),
            mqtt_use_tls,
            mqtt_username: text_or_default(mqtt_username, "poolcar"),
            mqtt_password: text_or_default(mqtt_password, "poolcar"),
            mqtt_topic: text_or_default(mqtt_topic, "poolcar/+"),
        })
    }
}


/// `MQTT_SECURE` is read as written: unset means TLS on, `true` on, `false`
/// off, and any other text is refused.
pub proof fn law_tls_setting_as_written(v: &ConfigVars)
    ensures
        v.mqtt_secure is None ==> secure_setting(v) == Some(true),
        v.mqtt_secure matches Some(s) ==> (s@ == "true"@ ==> secure_setting(v) == Some(true)),
        v.mqtt_secure matches Some(s) ==> (s@ == "false"@ ==> secure_setting(v) == Some(false)),
        v.mqtt_secure matches Some(s) ==> (s@ != "true"@ && s@ != "false"@ ==> secure_setting(v)
            is None),
{
    reveal_strlit("true");
    reveal_strlit("false");
    assert("true"@.len() != "false"@.len());
}

/// The configuration loads exactly when every required variable is set,
/// `MQTT_SECURE` is unset or reads `true` or `false`, a certificate is given
/// whenever TLS is on, and `MQTT_PORT` reads as a port; an unreadable
/// `MQTT_SECURE` is reported before anything else.
pub proof fn law_config_loads_when_complete(v: &ConfigVars)
    ensures
        first_config_error(v) is None <==> {
            &&& (v.mqtt_secure is None || v.mqtt_secure->0@ == "true"@ || v.mqtt_secure->0@
                == "false"@)
            &&& (v.mqtt_secure is None || v.mqtt_secure->0@ == "true"@) ==> v.mqtt_ca_crt is Some
            &&& v.database_url is Some
            &&& v.redis_url is Some
            &&& v.mqtt_url is Some
            &&& v.mqtt_client is Some
            &&& v.mqtt_username is Some
            &&& v.mqtt_password is Some
            &&& v.mqtt_port matches Some(s) && parse_u16_spec(s@) is Ok
            &&& v.jwt_secret is Some
            &&& v.google_api_key is Some
        },
        v.mqtt_secure matches Some(s) ==> (s@ != "true"@ && s@ != "false"@ ==> first_config_error(v)
            == Some(ConfigError::InvalidMqttSecure)),
{
    reveal_strlit("true");
    reveal_strlit("false");
    assert("true"@.len() != "false"@.len());
}

/// A port given in decimal is the port used, whatever the default; an
/// absent or unreadable one is the default.
pub proof fn law_port_as_given(o: Option<String>, default: u16, p: u16)
    ensures
        o matches Some(s) ==> (s@ == decimal(p as nat) ==> port_or(o, default) == p),
        o matches Some(s) ==> (parse_u16_spec(s@) == Ok::<u16, IntParseError>(p) ==> port_or(
            o,
            default,
        ) == p),
        o is None ==> port_or(o, default) == default,
        o matches Some(s) ==> (parse_u16_spec(s@) is Err ==> port_or(o, default) == default),
{
    law_parse_u16_reads_decimal(p);
}

/// A given text is used as given, an absent one is the default; a flag is
/// on exactly when written `true`.
pub proof fn law_settings_as_given(o: Option<String>, default: Seq<char>)
    ensures
        o matches Some(s) ==> text_or(o, default) == s@,
        o is None ==> text_or(o, default) == default,
        o matches Some(s) ==> (flag_or_false(o) <==> s@ == "true"@),
        o is None ==> !flag_or_false(o),
{
    reveal_strlit("true");
    reveal_strlit("false");
}

} // verus!
