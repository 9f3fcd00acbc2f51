//! The gateway configuration: plain data, loaded once at startup and shared
//! read-only by every request handler.
use vstd::prelude::*;

verus! {

/// Paths of the TLS certificate and key files for the listener.
pub struct Tls {
    pub cert: String,
    pub key: String,
}

/// Address of an auth backend.
pub struct Auth {
    pub grpc_host: String,
    pub grpc_port: u16,
}

/// One routing target: a pattern over host+path, an optional TLS material
/// reference, and the upstream base URLs traffic is forwarded to.
pub struct Service {
    pub url_match: String,
    pub tls_cert: Option<String>,
    pub upstreams: Vec<String>,
}

/// The whole configuration. Services are kept as an ordered list of
/// (name, definition) pairs in declaration order: routing takes the first
/// match, so it must never depend on an unordered structure's iteration
/// order.
pub struct Config {
    pub host: String,
    pub port: u16,
    pub workers: Option<usize>,
    pub is_intermediate: bool,
    pub log_level: Option<String>,
    pub tls: Option<Tls>,
    pub auth_servers: Option<Vec<String>>,
    pub services: Vec<(String, Service)>,
}

impl Config {
    /// The session-auth step runs only when at least one auth backend
    /// address is configured.
    pub open spec fn spec_auth_enabled(&self) -> bool {
        match self.auth_servers {
            Some(v) => v@.len() > 0,
            None => false,
        }
    }

    pub fn auth_enabled(&self) -> (r: bool)
        ensures
            r == self.spec_auth_enabled(),
    {
        match &self.auth_servers {
            Some(v) => v.len() > 0,
            None => false,
        }
    }
}

/// The sample configuration written out when none exists yet: a local plain
/// HTTP listener, one auth backend, and two sample services in declaration
/// order.
pub fn default_config() -> (r: Config)
    ensures
        r.host@ == "127.0.0.1"@,
        r.port == 8080,
        r.workers == Some(4usize),
        r.is_intermediate == false,
        r.log_level matches Some(l) && l@ == "info"@,
        r.tls is None,
        r.auth_servers matches Some(a) && a@.len() == 1 && a@[0]@ == "http://auth:50051"@,
        r.services@.len() == 2,
        r.services@[0].0@ == "Ums"@,
        r.services@[0].1.url_match@ == "(test|stage).mlkh.ru/api(1|2)/ums/.*"@,
        r.services@[0].1.tls_cert matches Some(c) && c@ == "service/cert.pem"@,
        r.services@[0].1.upstreams@.len() == 1 && r.services@[0].1.upstreams@[0]@
            == "http://ums:8080"@,
        r.services@[1].0@ == "Blog"@,
        r.services@[1].1.url_match@ == "(test|stage).mlkh.ru/api(1|2)/blog/.*"@,
        r.services@[1].1.tls_cert is None,
        r.services@[1].1.upstreams@.len() == 1 && r.services@[1].1.upstreams@[0]@
            == "http://blog:8080"@,
{
    let mut auth_servers: Vec<String> = Vec::new();
    auth_servers.push("http://auth:50051".to_owned());

    let mut ums_upstreams: Vec<String> = Vec::new();
    ums_upstreams.push("http://ums:8080".to_owned());
    let ums = Service {
        url_match: "(test|stage).mlkh.ru/api(1|2)/ums/.*".to_owned(),
        tls_cert: Some("service/cert.pem".to_owned()),
        upstreams: ums_upstreams,
    };

    let mut blog_upstreams: Vec<String> = Vec::new();
    blog_upstreams.push("http://blog:8080".to_owned());
    let blog = Service {
        url_match: "(test|stage).mlkh.ru/api(1|2)/blog/.*".to_owned(),
        tls_cert: None,
        upstreams: blog_upstreams,
    };

    let mut services: Vec<(String, Service)> = Vec::new();
    services.push(("Ums".to_owned(), ums));
    services.push(("Blog".to_owned(), blog));

    Config {
        host: "127.0.0.1".to_owned(),
        port: 8080,
        workers: Some(4),
        is_intermediate: false,
        log_level: Some("info".to_owned()),
        tls: None,
        auth_servers: Some(auth_servers),
        services,
    }
}

} // verus!
