use proxibly::settings::Transparent as TransparentSettings;
use proxibly::{Https, Listener, LogLevel, Mode, Settings, SettingsError};

fn settings(log_level: &str, listener: &str, mode: &str) -> Settings {
    Settings {
        log_level: log_level.to_string(),
        listener: listener.to_string(),
        https: Https { cert_path: "./crt.pem".to_string(), key_path: "./key.pem".to_string() },
        listen_port: 8080,
        listen_address: "127.0.0.1".to_string(),
        mode: mode.to_string(),
        only_allow: vec!["a".to_string()],
        only_deny: vec![],
        transparent: TransparentSettings { response_caching: true },
    }
}

#[test]
fn modes_parse() {
    assert_eq!(Mode::from_str("forward"), Ok(Mode::Forward));
    assert_eq!(Mode::from_str("transparent"), Ok(Mode::Transparent));
    assert_eq!(Mode::from_str("reverse"), Ok(Mode::Reverse));
    assert_eq!(Mode::from_str("Forward"), Err(SettingsError::UnknownMode));
    assert_eq!(Mode::from_str(""), Err(SettingsError::UnknownMode));
}

#[test]
fn listeners_parse() {
    assert_eq!(Listener::from_str("http"), Ok(Listener::Http));
    assert_eq!(Listener::from_str("https"), Ok(Listener::Https));
    assert_eq!(Listener::from_str("acme"), Ok(Listener::Acme));
    assert_eq!(Listener::from_str("tls"), Err(SettingsError::UnknownListener));
}

#[test]
fn settings_accessors() {
    let s = settings("warn", "https", "transparent");
    assert_eq!(s.mode(), Ok(Mode::Transparent));
    assert_eq!(s.listener(), Ok(Listener::Https));
    let bad = settings("warn", "ftp", "sideways");
    assert_eq!(bad.mode(), Err(SettingsError::UnknownMode));
    assert_eq!(bad.listener(), Err(SettingsError::UnknownListener));
}

#[test]
fn log_levels_parse_without_case() {
    let level = |name: &str| settings(name, "http", "forward").filter_level();
    assert_eq!(level("warn"), Ok(LogLevel::Warn));
    assert_eq!(level("DEBUG"), Ok(LogLevel::Debug));
    assert_eq!(level("Off"), Ok(LogLevel::Off));
    assert_eq!(level("error"), Ok(LogLevel::Error));
    assert_eq!(level("Info"), Ok(LogLevel::Info));
    assert_eq!(level("trace"), Ok(LogLevel::Trace));
    assert_eq!(level(""), Err(SettingsError::UnknownLogLevel));
    assert_eq!(
        settings("loud", "http", "forward").filter_level(),
        Err(SettingsError::UnknownLogLevel)
    );
}

#[test]
fn copy_keeps_every_field() {
    let s = settings("info", "acme", "reverse");
    let c = s.copy();
    assert_eq!(c.log_level, "info");
    assert_eq!(c.listener, "acme");
    assert_eq!(c.mode, "reverse");
    assert_eq!(c.only_allow, vec!["a".to_string()]);
    assert!(c.only_deny.is_empty());
    assert!(c.transparent.response_caching);
    assert_eq!(c.https.cert_path, "./crt.pem");
    assert_eq!(c.listen_port, 8080);
}
