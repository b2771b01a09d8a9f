//! A transparent HTTP forwarding proxy: access control on the client's
//! address, forwarding of the request to the host it names, and clean-up of
//! the upstream response before it is relayed.
pub mod text;

pub mod settings;

pub use settings::{Https, Listener, LogLevel, Mode, Settings, SettingsError};

pub mod access;

pub use access::{decide, deny_request, parse_remote, Decision};

pub mod upstream;

pub use upstream::{build_client, sanitize, ForwardingClient};

pub mod pipeline;

pub mod forward;

pub mod transparent;

pub use forward::Forward;
pub use pipeline::{next_step, Step, DENIED_STATUS, METHOD_REJECTED_STATUS, UPSTREAM_FAILURE_STATUS};
pub use transparent::Transparent;
