use poolcar::config::{
    normalize_database_url, Config, ConfigError, ConfigVar, ConfigVars, ServerSettings,
    ServerSettingsError, ServerVars,
};
use poolcar::text::IntParseError;

fn s(v: &str) -> Option<String> {
    Some(v.to_string())
}

fn full_vars() -> ConfigVars {
    ConfigVars {
        database_url: s("mysql://u:p@db/poolcar"),
        redis_url: s("redis://cache"),
        mqtt_url: s("broker.local"),
        mqtt_client: s("backend"),
        mqtt_username: s("mq"),
        mqtt_password: s("mqpw"),
        mqtt_secure: None,
        mqtt_ca_crt: s("/etc/ca.crt"),
        mqtt_port: s("8883"),
        jwt_secret: s("jwt"),
        google_api_key: s("key"),
    }
}

#[test]
fn configuration_loads_from_complete_variables() {
    let c = Config::from_env(full_vars()).unwrap();
    assert_eq!(c.database_url, "mysql://u:p@db/poolcar");
    assert_eq!(c.redis_url, "redis://cache");
    assert_eq!(c.mqtt_url, "broker.local");
    assert_eq!(c.mqtt_client, "backend");
    assert_eq!(c.mqtt_username, "mq");
    assert_eq!(c.mqtt_password, "mqpw");
    assert!(c.mqtt_secure);
    assert_eq!(c.mqtt_ca_crt.as_deref(), Some("/etc/ca.crt"));
    assert_eq!(c.mqtt_port, 8883);
    assert_eq!(c.jwt_secret, "jwt");
    assert_eq!(c.google_api_key, "key");
}

#[test]
fn tls_defaults_on_and_needs_a_certificate() {
    let mut v = full_vars();
    v.mqtt_ca_crt = None;
    assert_eq!(Config::from_env(v).err(), Some(ConfigError::MissingMqttCaCrt));
    let mut v = full_vars();
    v.mqtt_secure = s("false");
    v.mqtt_ca_crt = None;
    let c = Config::from_env(v).unwrap();
    assert!(!c.mqtt_secure);
    assert!(c.mqtt_ca_crt.is_none());
}

#[test]
fn configuration_errors_in_order() {
    let mut v = full_vars();
    v.mqtt_secure = s("yes");
    v.database_url = None;
    assert_eq!(Config::from_env(v).err(), Some(ConfigError::InvalidMqttSecure));
    let mut v = full_vars();
    v.database_url = None;
    v.redis_url = None;
    assert_eq!(Config::from_env(v).err(), Some(ConfigError::Missing(ConfigVar::DatabaseUrl)));
    let mut v = full_vars();
    v.mqtt_port = s("port");
    v.jwt_secret = None;
    assert_eq!(
        Config::from_env(v).err(),
        Some(ConfigError::InvalidMqttPort(IntParseError::InvalidDigit))
    );
    let mut v = full_vars();
    v.mqtt_port = s("70000");
    assert_eq!(
        Config::from_env(v).err(),
        Some(ConfigError::InvalidMqttPort(IntParseError::PosOverflow))
    );
    let mut v = full_vars();
    v.google_api_key = None;
    assert_eq!(Config::from_env(v).err(), Some(ConfigError::Missing(ConfigVar::GoogleApiKey)));
}

#[test]
fn configuration_error_messages() {
    assert_eq!(ConfigError::InvalidMqttSecure.message(), "MQTT_SECURE must be a boolean (true/false)");
    assert_eq!(
        ConfigError::MissingMqttCaCrt.message(),
        "MQTT_CA_CRT must be set when MQTT_SECURE is true"
    );
    assert_eq!(ConfigError::Missing(ConfigVar::JwtSecret).message(), "JWT_SECRET must be set");
    assert_eq!(ConfigError::Missing(ConfigVar::MqttPort).message(), "MQTT_PORT must be set");
    assert_eq!(
        ConfigError::InvalidMqttPort(IntParseError::Empty).message(),
        "".parse::<u16>().unwrap_err().to_string()
    );
    assert_eq!(
        ConfigError::InvalidMqttPort(IntParseError::InvalidDigit).message(),
        "x".parse::<u16>().unwrap_err().to_string()
    );
    assert_eq!(
        ConfigError::InvalidMqttPort(IntParseError::PosOverflow).message(),
        "99999".parse::<u16>().unwrap_err().to_string()
    );
}

#[test]
fn mariadb_addresses_use_the_mysql_scheme() {
    assert_eq!(normalize_database_url("mariadb://u:p@h/db"), "mysql://u:p@h/db");
    assert_eq!(normalize_database_url("mysql://u:p@h/db"), "mysql://u:p@h/db");
    assert_eq!(normalize_database_url("mariadb:/x"), "mariadb:/x");
    assert_eq!(normalize_database_url(""), "");
}

fn server_vars() -> ServerVars {
    ServerVars {
        redis_url: s("redis://cache"),
        rocket_port: s("8000"),
        mqtt_url: None,
        mqtt_port: None,
        mqtt_client: None,
        mqtt_secure: None,
        mqtt_username: None,
        mqtt_password: None,
        mqtt_topic: None,
    }
}

#[test]
fn server_settings_fall_back_to_defaults() {
    let st = ServerSettings::from_vars(server_vars()).unwrap();
    assert_eq!(st.redis_url, "redis://cache");
    assert_eq!(st.rocket_port, 8000);
    assert_eq!(st.mqtt_host, "localhost");
    assert_eq!(st.mqtt_port, 1883);
    assert_eq!(st.mqtt_client, "poolcar_backend");
    assert!(!st.mqtt_use_tls);
    assert_eq!(st.mqtt_username, "poolcar");
    assert_eq!(st.mqtt_password, "poolcar");
    assert_eq!(st.mqtt_topic, "poolcar/+");
}

#[test]
fn server_settings_take_given_values() {
    let mut v = server_vars();
    v.mqtt_url = s("mqtt.example");
    v.mqtt_port = s("notaport");
    v.mqtt_secure = s("true");
    v.mqtt_topic = s("cars/#");
    let st = ServerSettings::from_vars(v).unwrap();
    assert_eq!(st.mqtt_host, "mqtt.example");
    assert_eq!(st.mqtt_port, 1883);
    assert!(st.mqtt_use_tls);
    assert_eq!(st.mqtt_topic, "cars/#");
}

#[test]
fn server_settings_errors() {
    let mut v = server_vars();
    v.redis_url = None;
    assert_eq!(ServerSettings::from_vars(v).err(), Some(ServerSettingsError::MissingRedisUrl));
    let mut v = server_vars();
    v.rocket_port = None;
    assert_eq!(ServerSettings::from_vars(v).err(), Some(ServerSettingsError::MissingRocketPort));
    let mut v = server_vars();
    v.rocket_port = s("80a");
    let e = ServerSettings::from_vars(v).err().unwrap();
    assert_eq!(e, ServerSettingsError::InvalidRocketPort(IntParseError::InvalidDigit));
    assert_eq!(e.message(), "Failed to parse ROCKET_PORT as u16: invalid digit found in string");
    assert_eq!(
        ServerSettingsError::MissingRedisUrl.message(),
        "REDIS_URL environment variable is not set"
    );
    assert_eq!(
        ServerSettingsError::MissingRocketPort.message(),
        "ROCKET_PORT environment variable is not set"
    );
}
