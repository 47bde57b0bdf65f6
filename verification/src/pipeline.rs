//! The cache-aside proxy pipeline. One inbound request walks through
//! routing, a cache lookup, on a miss an upstream fetch, and a
//! best-effort cache write-back. The network steps are performed by
//! the surrounding program; every decision between them is made here.
//!
//! Per request the stages run strictly in this order: routing filter,
//! request counting, cache lookup, (on a miss) upstream fetch,
//! response, (after the response is determined) cache populate.

use vstd::prelude::*;
use vstd::string::StrSliceExecFns;
use vstd::string::StringExecFns;
use crate::errors::AppError;
use crate::runtime::RuntimeStats;

verus! {

/// Whether the pipeline handles a path: it must end in the `.yml`
/// suffix; everything else passes through untouched.
pub open spec fn is_handled_path(path: Seq<char>) -> bool {
    &&& path.len() >= 4
    &&& path[path.len() - 4] == '.'
    &&& path[path.len() - 3] == 'y'
    &&& path[path.len() - 2] == 'm'
    &&& path[path.len() - 1] == 'l'
}

/// An upstream HTTP status that counts as success.
pub open spec fn is_success_status(status: u16) -> bool {
    200 <= status < 300
}

/// The outcome of one pipeline invocation, as handed back to the
/// caller: the content served, and whether the cache served it.
pub struct ProxyResult {
    /// The response body.
    pub content: String,
    /// True when the cache served the content and no upstream contact
    /// occurred.
    pub from_cache: bool,
}

/// The routing decision that opens every invocation.
pub enum RequestStart {
    /// Suffix mismatch: terminal, no side effect follows.
    NotApplicable,
    /// The request is handled; look `url` up in the cache next.
    CacheCheck { url: String },
}

/// The decision after the cache answered.
pub enum CacheCheckOutcome {
    /// The cache held the entry: serve it, contact nothing.
    Serve { result: ProxyResult },
    /// Miss: fetch `url` from the upstream.
    FetchUpstream { url: String },
}

/// A pending cache write-back: store `value` under the key derived
/// from `url`, expiring after `ttl_seconds`.
pub struct CachePopulate {
    pub url: String,
    pub value: String,
    pub ttl_seconds: u64,
}

/// The decision after a successful upstream fetch: the response to
/// serve, and the write-back to attempt once the response is
/// determined.
pub struct UpstreamServe {
    pub result: ProxyResult,
    pub populate: CachePopulate,
}

/// The pipeline's configuration: one upstream base address, one
/// time-to-live for every entry written.
pub struct ProxyService {
    pub proxy_base_url: String,
    pub cache_expire_seconds: u64,
}

impl ProxyService {
    pub fn new(proxy_base_url: String, cache_expire_seconds: u64) -> (s: ProxyService)
        ensures
            s.proxy_base_url == proxy_base_url,
            s.cache_expire_seconds == cache_expire_seconds,
    {
        ProxyService { proxy_base_url, cache_expire_seconds }
    }

    /// The routing filter and the request counting. A path without the
    /// handled suffix is rejected with no side effect at all; a
    /// handled path is counted exactly once — before the cache lookup,
    /// so attempts are counted, not only upstream fetches — and turned
    /// into the upstream URL by plain concatenation, the path passed
    /// through verbatim.
    pub fn begin_request(&self, path: &str, stats: &mut RuntimeStats) -> (start: RequestStart)
        requires
            old(stats).request_count < u64::MAX,
        ensures
            !is_handled_path(path@) ==> {
                &&& start is NotApplicable
                &&& *final(stats) == *old(stats)
            },
            is_handled_path(path@) ==> {
                &&& start matches RequestStart::CacheCheck { url }
                &&& url@ == self.proxy_base_url@ + path@
                &&& final(stats).request_count == old(stats).request_count + 1
                &&& final(stats).cache_hit_count == old(stats).cache_hit_count
                &&& final(stats).start_unix_time == old(stats).start_unix_time
            },
    {
        if !ends_with_yml(path) {
            return RequestStart::NotApplicable;
        }
        stats.increment_request_count();
        let mut url = self.proxy_base_url.clone();
        url.append(path);
        RequestStart::CacheCheck { url }
    }

    /// The decision on the cache's answer. A present entry is served
    /// as it stands and counted as a hit; no upstream contact occurs
    /// on a hit. An absent entry — never written or already expired,
    /// the two are not distinguished — sends the request upstream.
    pub fn on_cache_response(
        &self,
        url: String,
        cached: Option<String>,
        stats: &mut RuntimeStats,
    ) -> (outcome: CacheCheckOutcome)
        requires
            old(stats).cache_hit_count < u64::MAX,
        ensures
            cached matches Some(content) ==> {
                &&& outcome matches CacheCheckOutcome::Serve { result }
                &&& result.content == content
                &&& result.from_cache == true
                &&& final(stats).cache_hit_count == old(stats).cache_hit_count + 1
                &&& final(stats).request_count == old(stats).request_count
                &&& final(stats).start_unix_time == old(stats).start_unix_time
            },
            cached is None ==> {
                &&& outcome matches CacheCheckOutcome::FetchUpstream { url: u }
                &&& u == url
                &&& *final(stats) == *old(stats)
            },
    {
        match cached {
            Some(content) => {
                stats.increment_cache_hit_count();
                CacheCheckOutcome::Serve {
                    result: ProxyResult { content, from_cache: true },
                }
            },
            None => CacheCheckOutcome::FetchUpstream { url },
        }
    }

    /// The decision on the upstream's answer. A non-success status is
    /// a hard failure for this request — not retried, not treated as
    /// empty content — surfaced as the gateway error carrying the
    /// status and the URL, and no cache write follows. A success
    /// status yields the body as the response, served from upstream,
    /// together with the write-back to attempt with the configured
    /// time-to-live.
    pub fn on_upstream_response(&self, url: String, status: u16, body: String) -> (r: Result<
        UpstreamServe,
        AppError,
    >)
        ensures
            is_success_status(status) ==> {
                &&& r matches Ok(serve)
                &&& serve.result.content == body
                &&& serve.result.from_cache == false
                &&& serve.populate.url == url
                &&& serve.populate.value == body
                &&& serve.populate.ttl_seconds == self.cache_expire_seconds
            },
            !is_success_status(status) ==> {
                &&& r matches Err(e)
                &&& e matches AppError::Proxy { status: st, url: u }
                &&& st == status
                &&& u == url
            },
    {
        if 200 <= status && status < 300 {
            let value = body.clone();
            Ok(
                UpstreamServe {
                    result: ProxyResult { content: body, from_cache: false },
                    populate: CachePopulate {
                        url,
                        value,
                        ttl_seconds: self.cache_expire_seconds,
                    },
                },
            )
        } else {
            Err(AppError::Proxy { status, url })
        }
    }
}

/// The response already determined is what the caller receives,
/// whatever became of the best-effort write-back: a cache-write
/// failure is invisible to the client.
#[allow(unused_variables)]
pub fn respond_after_populate(result: ProxyResult, populate_outcome: Result<
    (),
    AppError,
>) -> (r: ProxyResult)
    ensures
        r.content == result.content,
        r.from_cache == result.from_cache,
{
    result
}

/// The body served for a path the pipeline does not handle.
pub fn not_applicable_body() -> (body: String)
    ensures
        body@ == Seq::<char>::empty(),
{
    String::new()
}

/// Whether the path ends in the handled suffix.
fn ends_with_yml(path: &str) -> (r: bool)
    ensures
        r == is_handled_path(path@),
{
    let n = path.unicode_len();
    if n < 4 {
        return false;
    }
    path.get_char(n - 4) == '.' && path.get_char(n - 3) == 'y' && path.get_char(n - 2) == 'm'
        && path.get_char(n - 1) == 'l'
}

} // verus!
