//! The immutable system configuration, loaded once at startup by the
//! surrounding program and handed in as plain values, and the
//! composition of the store's connection URL from it.

use vstd::prelude::*;
use vstd::string::StringExecFns;
use crate::digits::dec_rep;
use crate::digits::u64_to_dec_string;

verus! {

/// Connection parameters of the expiring key/value store.
pub struct RedisConfig {
    /// Store host address.
    pub address: String,
    /// Store port.
    pub port: u16,
    /// Store credential.
    pub password: String,
    /// Default time-to-live of a cache entry, in seconds.
    pub cache_expire_time: u64,
}

/// The whole configuration: server binding, home document, upstream
/// base address, and the store parameters.
pub struct SystemConfig {
    /// Address the server binds to.
    pub server_address: String,
    /// Port the server binds to.
    pub server_port: u16,
    /// Local path of the static home document.
    pub home_file_path: String,
    /// Base address of the proxied upstream.
    pub proxy_address: String,
    /// Key/value store parameters.
    pub redis: RedisConfig,
}

/// The connection URL the store client is created from:
/// `redis://:<password>@<address>:<port>/0`.
pub open spec fn redis_url_spec(cfg: &RedisConfig) -> Seq<char> {
    "redis://:"@ + cfg.password@ + "@"@ + cfg.address@ + ":"@ + dec_rep(cfg.port as nat)
        + "/0"@
}

/// Composes the store's connection URL from the configuration.
pub fn redis_connection_url(cfg: &RedisConfig) -> (url: String)
    ensures
        url@ == redis_url_spec(cfg),
{
    let mut url = "redis://:".to_owned();
    url.append(cfg.password.as_str());
    url.append("@");
    url.append(cfg.address.as_str());
    url.append(":");
    let port = u64_to_dec_string(cfg.port as u64);
    url.append(port.as_str());
    url.append("/0");
    url
}

} // verus!
