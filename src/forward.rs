//! The proxy in forward mode: requests go to the host that they name, and
//! `CONNECT` is refused.
use vstd::prelude::*;

use crate::access::opt_view;
use crate::pipeline::{next_step, step_for, Step};
use crate::settings::{same_settings, Settings};
use crate::upstream::{build_client, ForwardingClient};

verus! {

pub struct Forward {
    settings: Settings,
}

impl Forward {
    /// The settings that this proxy works by.
    pub closed spec fn config(&self) -> Settings {
        self.settings
    }

    pub fn new(s: &Settings) -> (r: Self)
        ensures
            same_settings(&r.config(), s),
    {
        Self { settings: s.copy() }
    }

    /// What to do with a request from `remote` with method token `method`.
    pub fn step(&self, remote: Option<&str>, method: &str) -> (r: Step)
        ensures
            r == step_for(opt_view(remote), method@, self.config(), true),
    {
        next_step(&self.settings, remote, method, true)
    }

    /// The client that dispatched requests go through.
    /// `None` where the HTTP back end cannot be started.
    pub fn client(&self) -> (r: Option<ForwardingClient>)
        ensures
            r.is_some() ==> r.unwrap().caches() == self.config().transparent.response_caching,
    {
        build_client(self.settings.transparent.response_caching)
    }
}

} // verus!
