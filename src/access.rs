//! Access control: whether a client, known by the address that the
//! listener reports for it, may use the proxy.
use vstd::prelude::*;

use crate::settings::Settings;
use crate::text::{contains_string, string_views};

verus! {

/// The access-control outcome for one request.
#[derive(Clone, Copy, Debug, PartialEq, Eq, Structural)]
pub enum Decision {
    Admit,
    Deny,
}

/// The host of the URL that `url::Url::parse` reads from `s`: `None` when
/// the text is no URL, or a URL without a host.
pub uninterp spec fn url_host(s: Seq<char>) -> Option<Seq<char>>;

/// Relies on `Url::parse` and `Url::host_str` (url, re-exported by tide):
/// the result depends on the text alone.
#[verifier::external_body]
fn host_of_url(s: &str) -> (r: Option<String>)
    ensures
        r.is_some() == url_host(s@).is_some(),
        r.is_some() ==> r.unwrap()@ == url_host(s@).unwrap(),
{
    match tide::http::Url::parse(s) {
        Ok(url) => match url.host_str() {
            Some(host) => Some(host.to_string()),
            None => None,
        },
        Err(_) => None,
    }
}

/// The host named by a peer address such as `203.0.113.5:54321`: the host
/// of the URL `http://` followed by the address.
pub open spec fn remote_host(remote: Seq<char>) -> Option<Seq<char>> {
    url_host("http://"@ + remote)
}

/// The access decision for a peer address (`None` when the listener
/// knows none) and the two host lists. The allow list, when it is not
/// empty, takes precedence and the deny list is then ignored; a peer whose
/// host cannot be read is denied whenever a list is in force.
pub open spec fn decision(
    remote: Option<Seq<char>>,
    only_allow: Seq<Seq<char>>,
    only_deny: Seq<Seq<char>>,
) -> Decision {
    match remote {
        None => Decision::Deny,
        Some(peer) => if only_allow.len() > 0 {
            match remote_host(peer) {
                Some(host) => if only_allow.contains(host) {
                    Decision::Admit
                } else {
                    Decision::Deny
                },
                None => Decision::Deny,
            }
        } else if only_deny.len() > 0 {
            match remote_host(peer) {
                Some(host) => if only_deny.contains(host) {
                    Decision::Deny
                } else {
                    Decision::Admit
                },
                None => Decision::Deny,
            }
        } else {
            Decision::Admit
        },
    }
}

/// While the allow list is not empty, the deny list plays no part: any two
/// deny lists give the same decision.
pub proof fn lemma_allow_list_overrides_deny(
    remote: Option<Seq<char>>,
    only_allow: Seq<Seq<char>>,
    deny_a: Seq<Seq<char>>,
    deny_b: Seq<Seq<char>>,
)
    requires
        only_allow.len() > 0,
    ensures
        decision(remote, only_allow, deny_a) == decision(remote, only_allow, deny_b),
{
}

/// A peer address as a sequence of characters, where there is one.
pub open spec fn opt_view(remote: Option<&str>) -> Option<Seq<char>> {
    match remote {
        Some(s) => Some(s@),
        None => None,
    }
}

/// The bare host of a peer address, with its port taken off.
pub fn parse_remote(remote: &str) -> (r: Option<String>)
    ensures
        r.is_some() == remote_host(remote@).is_some(),
        r.is_some() ==> r.unwrap()@ == remote_host(remote@).unwrap(),
{
    let mut url = String::from_str("http://");
    url.append(remote);
    proof {
        reveal_strlit("http://");
    }
    host_of_url(url.as_str())
}

/// The access decision for a peer address and two host lists.
pub fn decide(remote: Option<&str>, only_allow: &Vec<String>, only_deny: &Vec<String>) -> (r:
    Decision)
    ensures
        r == decision(opt_view(remote), string_views(only_allow@), string_views(only_deny@)),
        remote.is_none() ==> r == Decision::Deny,
        remote.is_some() && only_allow@.len() > 0 ==> (r == Decision::Admit <==> (remote_host(
            remote.unwrap()@,
        ).is_some() && string_views(only_allow@).contains(
            remote_host(remote.unwrap()@).unwrap(),
        ))),
        remote.is_some() && only_allow@.len() == 0 && only_deny@.len() > 0 && remote_host(
            remote.unwrap()@,
        ).is_some() ==> (r == Decision::Deny <==> string_views(only_deny@).contains(
            remote_host(remote.unwrap()@).unwrap(),
        )),
        only_allow@.len() == 0 && only_deny@.len() == 0 && remote.is_some() ==> r
            == Decision::Admit,
{
    match remote {
        None => Decision::Deny,
        Some(peer) => {
            if only_allow.len() > 0 {
                match parse_remote(peer) {
                    Some(host) => if contains_string(only_allow, &host) {
                        Decision::Admit
                    } else {
                        Decision::Deny
                    },
                    None => Decision::Deny,
                }
            } else if only_deny.len() > 0 {
                match parse_remote(peer) {
                    Some(host) => if contains_string(only_deny, &host) {
                        Decision::Deny
                    } else {
                        Decision::Admit
                    },
                    None => Decision::Deny,
                }
            } else {
                Decision::Admit
            }
        },
    }
}

/// Whether the request of a peer is to be refused under the settings'
/// host lists.
pub fn deny_request(remote_addr: Option<&str>, settings: &Settings) -> (r: bool)
    ensures
        r == (decision(
            opt_view(remote_addr),
            string_views(settings.only_allow@),
            string_views(settings.only_deny@),
        ) == Decision::Deny),
{
    let d = decide(remote_addr, &settings.only_allow, &settings.only_deny);
    match d {
        Decision::Deny => true,
        Decision::Admit => false,
    }
}

} // verus!
