//! The proxy in transparent mode: requests go to the host that they name,
//! whatever their method.
use vstd::prelude::*;

use crate::access::opt_view;
use crate::pipeline::{next_step, step_for, Step};
use crate::settings::Settings;
use crate::upstream::{build_client, ForwardingClient};

verus! {

pub struct Transparent {
    settings: Settings,
}

impl Transparent {
    /// The settings that this proxy works by.
    pub closed spec fn config(&self) -> Settings {
        self.settings
    }

    pub fn new(settings: Settings) -> (r: Self)
        ensures
            r.config() == settings,
    {
        Self { settings }
    }

    /// What to do with a request from `remote` with method token `method`.
    pub fn step(&self, remote: Option<&str>, method: &str) -> (r: Step)
        ensures
            r == step_for(opt_view(remote), method@, self.config(), false),
    {
        next_step(&self.settings, remote, method, false)
    }

    /// The client that dispatched requests go through.
    /// `None` where the HTTP back end cannot be started.
    pub fn client(&self) -> (r: Option<ForwardingClient>)
        ensures
            r.is_some() ==> r.unwrap().caches() == self.config().transparent.response_caching,
    {
        build_client(self.settings.transparent.response_caching)
    }
}

} // verus!
