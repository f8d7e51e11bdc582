//! The server's configuration, built once at startup and read everywhere.

use vstd::prelude::*;

verus! {

/// Process-wide configuration; nothing changes it after startup.
pub struct ServerConfig {
    /// The directory whose files are served.
    pub root_dir: String,
    /// The address to listen on, as `host:port`.
    pub bind_addr: String,
    /// The value of the CORS origin header, sent verbatim.
    pub cors_origin: String,
    /// The Cache-Control max-age in seconds; a negative value disables caching.
    pub cache_seconds: i64,
    /// Whether to open a browser once the server answers.
    pub open_browser: bool,
}

impl ServerConfig {
    /// A configuration from its parts.
    pub fn new(
        root_dir: String,
        bind_addr: String,
        cors_origin: String,
        cache_seconds: i64,
        open_browser: bool,
    ) -> (r: ServerConfig)
        ensures
            r.root_dir@ == root_dir@,
            r.bind_addr@ == bind_addr@,
            r.cors_origin@ == cors_origin@,
            r.cache_seconds == cache_seconds,
            r.open_browser == open_browser,
    {
        ServerConfig { root_dir, bind_addr, cors_origin, cache_seconds, open_browser }
    }
}

/// The URL that the readiness probe requests.
pub open spec fn probe_url_of(bind_addr: Seq<char>) -> Seq<char> {
    "http://"@ + bind_addr
}

/// The URL at which the server answers, used to probe it.
pub fn probe_url(config: &ServerConfig) -> (r: String)
    ensures
        r@ == probe_url_of(config.bind_addr@),
{
    let mut r = String::from_str("http://");
    r.append(config.bind_addr.as_str());
    r
}

} // verus!
