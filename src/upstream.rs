//! The way out: the HTTP client that sends a forwarded request, and the
//! clean-up of the response that comes back before it is relayed.
use vstd::prelude::*;

use surf_middleware_cache::managers::CACacheManager;
use surf_middleware_cache::{Cache, CacheMode};

use crate::pipeline::UPSTREAM_FAILURE_STATUS;

verus! {

#[verifier::external_type_specification]
#[verifier::external_body]
pub struct ExClient(surf::Client);

#[verifier::external_type_specification]
#[verifier::external_body]
pub struct ExResponse(surf::Response);

#[verifier::external_type_specification]
#[verifier::external_body]
pub struct ExError(surf::Error);

/// Whether a client sends its requests through a response cache layer.
pub uninterp spec fn has_response_cache(c: surf::Client) -> bool;

/// Relies on `surf::Client::try_from(surf::Config::new())`: a client with no
/// middleware over surf's default HTTP back end, or `None` where that back
/// end cannot be started (it reports this as an error, not a panic).
#[verifier::external_body]
fn plain_client() -> (r: Option<surf::Client>)
    ensures
        r.is_some() ==> !has_response_cache(r.unwrap()),
{
    match <surf::Client as std::convert::TryFrom<surf::Config>>::try_from(surf::Config::new()) {
        Ok(client) => Some(client),
        Err(_) => None,
    }
}

/// Relies on `surf::Client::try_from(surf::Config::new())` and
/// `Client::with`, given surf-middleware-cache's `Cache` in its default HTTP
/// caching mode over the on-disk `CACacheManager` store: the client's one
/// middleware is that cache. `with` panics only on a client that has been
/// cloned or used, and this one is new. `None` where the HTTP back end
/// cannot be started.
#[verifier::external_body]
fn caching_client() -> (r: Option<surf::Client>)
    ensures
        r.is_some() ==> has_response_cache(r.unwrap()),
{
    match <surf::Client as std::convert::TryFrom<surf::Config>>::try_from(surf::Config::new()) {
        Ok(client) => Some(
            client.with(Cache { mode: CacheMode::Default, cache_manager: CACacheManager::default() }),
        ),
        Err(_) => None,
    }
}

/// An HTTP client for forwarded requests, with or without a response cache
/// in front of the network.
pub struct ForwardingClient {
    client: surf::Client,
    caching: bool,
}

/// An upstream call that failed: the status to reply with, and the error
/// that the client reported.
pub struct UpstreamFailure {
    pub status: u16,
    pub error: surf::Error,
}

impl ForwardingClient {
    #[verifier::type_invariant]
    spec fn inv(&self) -> bool {
        self.caching == has_response_cache(self.client)
    }

    /// Whether requests go through a response cache layer, which serves a
    /// fresh stored response and stores what the network returns.
    pub closed spec fn caches(&self) -> bool {
        has_response_cache(self.client)
    }

    pub fn caching(&self) -> (r: bool)
        ensures
            r == self.caches(),
    {
        proof {
            use_type_invariant(self);
        }
        self.caching
    }

    /// The client that sends the requests.
    pub fn http(&self) -> (r: &surf::Client)
        ensures
            has_response_cache(*r) == self.caches(),
    {
        &self.client
    }

    /// What to relay for the outcome of sending a request through this
    /// client: the response, sanitized as this client's caching asks, or
    /// the upstream-failure status together with the error.
    pub fn finish(&self, sent: Result<surf::Response, surf::Error>) -> (r: Result<
        surf::Response,
        UpstreamFailure,
    >)
        ensures
            match r {
                Ok(out) => {
                    &&& sent is Ok
                    &&& header_map(out) == sanitized_headers(header_map(sent->Ok_0), self.caches())
                    &&& status_code(out) == status_code(sent->Ok_0)
                },
                Err(failure) => sent is Err && failure.status == UPSTREAM_FAILURE_STATUS,
            },
    {
        match sent {
            Ok(res) => {
                let mut res = res;
                let caching = self.caching();
                sanitize(&mut res, caching);
                Ok(res)
            },
            Err(error) => Err(UpstreamFailure { status: UPSTREAM_FAILURE_STATUS, error }),
        }
    }
}

/// A client that sends through a response cache exactly when `caching` is
/// set; `None` where the HTTP back end cannot be started.
pub fn build_client(caching: bool) -> (r: Option<ForwardingClient>)
    ensures
        r.is_some() ==> r.unwrap().caches() == caching,
{
    if caching {
        match caching_client() {
            Some(client) => Some(ForwardingClient { client, caching: true }),
            None => None,
        }
    } else {
        match plain_client() {
            Some(client) => Some(ForwardingClient { client, caching: false }),
            None => None,
        }
    }
}

/// The headers of a response: each name, in lower case, with its values.
pub uninterp spec fn header_map(r: surf::Response) -> Map<Seq<char>, Seq<Seq<char>>>;

/// The status code of a response.
pub uninterp spec fn status_code(r: surf::Response) -> u16;

/// A header name that the header map stores as it is: ASCII without capital
/// letters.
pub open spec fn is_lower_ascii(name: Seq<char>) -> bool {
    forall|i: int|
        0 <= i < name.len() ==> (name[i] as u32) < 128 && !('A' <= #[trigger] name[i] && name[i]
            <= 'Z')
}

/// Relies on `surf::Response::remove_header`: it removes the entry of the
/// lower-cased name from the header map and touches nothing else. The name
/// must be ASCII, else its conversion to a header name panics.
#[verifier::external_body]
fn remove_header(res: &mut surf::Response, name: &str)
    requires
        is_lower_ascii(name@),
    ensures
        header_map(*final(res)) == header_map(*old(res)).remove(name@),
        status_code(*final(res)) == status_code(*old(res)),
{
    res.remove_header(name);
}

/// The headers that the proxy relays for upstream headers `h`: `etag` is
/// always dropped, and `transfer-encoding` and `content-encoding` too when
/// the response came through the cache.
pub open spec fn sanitized_headers(h: Map<Seq<char>, Seq<Seq<char>>>, caching: bool) -> Map<
    Seq<char>,
    Seq<Seq<char>>,
> {
    if caching {
        h.remove("etag"@).remove("transfer-encoding"@).remove("content-encoding"@)
    } else {
        h.remove("etag"@)
    }
}

/// Whether headers `h` hold none of those that sanitizing drops.
pub open spec fn is_sanitized(h: Map<Seq<char>, Seq<Seq<char>>>, caching: bool) -> bool {
    &&& !h.contains_key("etag"@)
    &&& caching ==> !h.contains_key("transfer-encoding"@) && !h.contains_key("content-encoding"@)
}

/// Takes from an upstream response the headers that do not describe what is
/// relayed; status and all other headers stay as they were.
pub fn sanitize(res: &mut surf::Response, caching: bool)
    ensures
        header_map(*final(res)) == sanitized_headers(header_map(*old(res)), caching),
        status_code(*final(res)) == status_code(*old(res)),
{
    proof {
        reveal_strlit("etag");
        reveal_strlit("transfer-encoding");
        reveal_strlit("content-encoding");
    }
    remove_header(res, "etag");
    if caching {
        remove_header(res, "transfer-encoding");
        remove_header(res, "content-encoding");
    }
}

/// What sanitizing leaves is sanitized, and sanitizing it again changes
/// nothing.
pub proof fn lemma_sanitize_idempotent(h: Map<Seq<char>, Seq<Seq<char>>>, caching: bool)
    ensures
        is_sanitized(sanitized_headers(h, caching), caching),
        sanitized_headers(sanitized_headers(h, caching), caching) == sanitized_headers(h, caching),
{
    assert(sanitized_headers(sanitized_headers(h, caching), caching) =~= sanitized_headers(
        h,
        caching,
    ));
}

/// Headers that hold none of the dropped names pass sanitizing unchanged.
pub proof fn lemma_sanitized_unchanged(h: Map<Seq<char>, Seq<Seq<char>>>, caching: bool)
    requires
        is_sanitized(h, caching),
    ensures
        sanitized_headers(h, caching) == h,
{
    assert(sanitized_headers(h, caching) =~= h);
}

/// Without the cache, a relayed response carries the upstream headers with
/// only `etag` removed.
pub proof fn lemma_uncached_relay(h: Map<Seq<char>, Seq<Seq<char>>>)
    ensures
        sanitized_headers(h, false) == h.remove("etag"@),
{
}

} // verus!
