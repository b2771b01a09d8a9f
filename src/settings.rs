//! The proxy's configuration, as read once at start-up, and the closed
//! choices that its string-typed entries name.
use vstd::prelude::*;

use crate::text::{clone_strings, eq_ignore_ascii_case, str_eq};

verus! {

/// How the proxy picks the destination of a request.
#[derive(Clone, Copy, Debug, PartialEq, Eq, Structural)]
pub enum Mode {
    /// Forward the request to the host that it names; `CONNECT` is refused.
    Forward,
    /// Forward the request to the host that it names.
    Transparent,
    /// Route requests to configured back ends (not implemented).
    Reverse,
}

/// How the proxy listens for connections.
#[derive(Clone, Copy, Debug, PartialEq, Eq, Structural)]
pub enum Listener {
    Http,
    Https,
    /// TLS with certificates obtained over ACME (not implemented).
    Acme,
}

/// A configuration entry that names none of the values it may take.
#[derive(Clone, Copy, Debug, PartialEq, Eq, Structural)]
pub enum SettingsError {
    UnknownMode,
    UnknownListener,
    UnknownLogLevel,
}

/// The mode that a configuration string names, if any.
pub open spec fn mode_named(s: Seq<char>) -> Option<Mode> {
    if s == "forward"@ {
        Some(Mode::Forward)
    } else if s == "transparent"@ {
        Some(Mode::Transparent)
    } else if s == "reverse"@ {
        Some(Mode::Reverse)
    } else {
        None
    }
}

/// The listener that a configuration string names, if any.
pub open spec fn listener_named(s: Seq<char>) -> Option<Listener> {
    if s == "http"@ {
        Some(Listener::Http)
    } else if s == "https"@ {
        Some(Listener::Https)
    } else if s == "acme"@ {
        Some(Listener::Acme)
    } else {
        None
    }
}

/// How much the proxy logs: nothing, or messages up to the given level.
#[derive(Clone, Copy, Debug, PartialEq, Eq, Structural)]
pub enum LogLevel {
    Off,
    Error,
    Warn,
    Info,
    Debug,
    Trace,
}

/// The log level that a configuration string names, if any: one of `off`,
/// `error`, `warn`, `info`, `debug`, `trace`, with ASCII letters in either
/// case.
pub open spec fn level_named(s: Seq<char>) -> Option<LogLevel> {
    if eq_ignore_ascii_case(s, "off"@) {
        Some(LogLevel::Off)
    } else if eq_ignore_ascii_case(s, "error"@) {
        Some(LogLevel::Error)
    } else if eq_ignore_ascii_case(s, "warn"@) {
        Some(LogLevel::Warn)
    } else if eq_ignore_ascii_case(s, "info"@) {
        Some(LogLevel::Info)
    } else if eq_ignore_ascii_case(s, "debug"@) {
        Some(LogLevel::Debug)
    } else if eq_ignore_ascii_case(s, "trace"@) {
        Some(LogLevel::Trace)
    } else {
        None
    }
}

impl Mode {
    pub fn from_str(mode: &str) -> (r: Result<Mode, SettingsError>)
        ensures
            r == match mode_named(mode@) {
                Some(m) => Ok::<Mode, SettingsError>(m),
                None => Err(SettingsError::UnknownMode),
            },
    {
        proof {
            reveal_strlit("forward");
            reveal_strlit("transparent");
            reveal_strlit("reverse");
        }
        if str_eq(mode, "forward") {
            Ok(Mode::Forward)
        } else if str_eq(mode, "transparent") {
            Ok(Mode::Transparent)
        } else if str_eq(mode, "reverse") {
            Ok(Mode::Reverse)
        } else {
            Err(SettingsError::UnknownMode)
        }
    }
}

impl Listener {
    pub fn from_str(listener: &str) -> (r: Result<Listener, SettingsError>)
        ensures
            r == match listener_named(listener@) {
                Some(l) => Ok::<Listener, SettingsError>(l),
                None => Err(SettingsError::UnknownListener),
            },
    {
        proof {
            reveal_strlit("http");
            reveal_strlit("https");
            reveal_strlit("acme");
        }
        if str_eq(listener, "http") {
            Ok(Listener::Http)
        } else if str_eq(listener, "https") {
            Ok(Listener::Https)
        } else if str_eq(listener, "acme") {
            Ok(Listener::Acme)
        } else {
            Err(SettingsError::UnknownListener)
        }
    }
}

/// Relies on `log::LevelFilter::from_str` (re-exported by tide): it
/// compares the text, ignoring ASCII case, with the names `OFF`, `ERROR`,
/// `WARN`, `INFO`, `DEBUG`, `TRACE` and gives the filter of that name.
#[verifier::external_body]
fn parse_level_filter(s: &str) -> (r: Option<LogLevel>)
    ensures
        r == level_named(s@),
{
    match <tide::log::LevelFilter as std::str::FromStr>::from_str(s) {
        Ok(tide::log::LevelFilter::Off) => Some(LogLevel::Off),
        Ok(tide::log::LevelFilter::Error) => Some(LogLevel::Error),
        Ok(tide::log::LevelFilter::Warn) => Some(LogLevel::Warn),
        Ok(tide::log::LevelFilter::Info) => Some(LogLevel::Info),
        Ok(tide::log::LevelFilter::Debug) => Some(LogLevel::Debug),
        Ok(tide::log::LevelFilter::Trace) => Some(LogLevel::Trace),
        Err(_) => None,
    }
}

/// Settings of the `transparent` section.
#[derive(Clone, Debug)]
pub struct Transparent {
    pub response_caching: bool,
}

/// Settings of the `https` section: where the PEM files lie.
#[derive(Clone, Debug)]
pub struct Https {
    pub cert_path: String,
    pub key_path: String,
}

/// The whole configuration, immutable once built.
#[derive(Clone, Debug)]
pub struct Settings {
    pub log_level: String,
    pub listener: String,
    pub https: Https,
    pub listen_port: u32,
    pub listen_address: String,
    pub mode: String,
    pub only_allow: Vec<String>,
    pub only_deny: Vec<String>,
    pub transparent: Transparent,
}

/// Two configurations that hold the same values.
pub open spec fn same_settings(a: &Settings, b: &Settings) -> bool {
    &&& a.log_level@ == b.log_level@
    &&& a.listener@ == b.listener@
    &&& a.https.cert_path@ == b.https.cert_path@
    &&& a.https.key_path@ == b.https.key_path@
    &&& a.listen_port == b.listen_port
    &&& a.listen_address@ == b.listen_address@
    &&& a.mode@ == b.mode@
    &&& a.only_allow@ == b.only_allow@
    &&& a.only_deny@ == b.only_deny@
    &&& a.transparent.response_caching == b.transparent.response_caching
}

impl Settings {
    /// A copy of these settings.
    pub fn copy(&self) -> (r: Settings)
        ensures
            same_settings(&r, self),
    {
        Settings {
            log_level: self.log_level.clone(),
            listener: self.listener.clone(),
            https: Https {
                cert_path: self.https.cert_path.clone(),
                key_path: self.https.key_path.clone(),
            },
            listen_port: self.listen_port,
            listen_address: self.listen_address.clone(),
            mode: self.mode.clone(),
            only_allow: clone_strings(&self.only_allow),
            only_deny: clone_strings(&self.only_deny),
            transparent: Transparent { response_caching: self.transparent.response_caching },
        }
    }

    /// The log level that `log_level` names.
    pub fn filter_level(&self) -> (r: Result<LogLevel, SettingsError>)
        ensures
            r == match level_named(self.log_level@) {
                Some(l) => Ok::<LogLevel, SettingsError>(l),
                None => Err(SettingsError::UnknownLogLevel),
            },
    {
        match parse_level_filter(self.log_level.as_str()) {
            Some(level) => Ok(level),
            None => Err(SettingsError::UnknownLogLevel),
        }
    }

    /// The operating mode that `mode` names.
    pub fn mode(&self) -> (r: Result<Mode, SettingsError>)
        ensures
            r == match mode_named(self.mode@) {
                Some(m) => Ok::<Mode, SettingsError>(m),
                None => Err(SettingsError::UnknownMode),
            },
    {
        Mode::from_str(self.mode.as_str())
    }

    /// The listener kind that `listener` names.
    pub fn listener(&self) -> (r: Result<Listener, SettingsError>)
        ensures
            r == match listener_named(self.listener@) {
                Some(l) => Ok::<Listener, SettingsError>(l),
                None => Err(SettingsError::UnknownListener),
            },
    {
        Listener::from_str(self.listener.as_str())
    }
}

} // verus!
