//! The configuration surface: the read-only values the server consults, the
//! documented default for every field, and the resolution of a parsed
//! configuration document in which any field or section may be absent.

use vstd::prelude::*;

verus! {

/// Where the server listens and what CORS origin it answers with.
pub struct Network {
    /// IPv4 address the listener binds, e.g. `0.0.0.0` for all interfaces.
    pub address: String,
    /// Port the address is bound to, kept as the numeric string it is
    /// written as, e.g. `443`.
    pub port: String,
    /// Value of the `Access-Control-Allow-Origin` response header.
    pub allow_origin: String,
}

/// Worker-pool size and the per-read deadline on request streams.
pub struct Performance {
    /// How many worker threads handle connections.
    pub thread_pool_size: usize,
    /// How long one read on a request stream may block, in milliseconds.
    pub connection_timeout_millis: u64,
}

/// The TLS material the listener is set up with.
pub struct Security {
    /// Whether the server terminates TLS; required to be on in this revision.
    pub https: bool,
    /// Path to the PEM certificate file.
    pub certificate_file: String,
    /// Path to the PEM private key file.
    pub private_key_file: String,
}

/// The whole read-only configuration, resolved once at startup.
pub struct Config {
    pub network: Network,
    pub performance: Performance,
    pub security: Security,
}

/// Default ipv4 address.
pub fn def_ipv4_addr() -> (r: String)
    ensures
        r@ == "0.0.0.0"@,
{
    "0.0.0.0".to_string()
}

/// Default ipv4 port.
pub fn def_ipv4_port() -> (r: String)
    ensures
        r@ == "443"@,
{
    "443".to_string()
}

/// Default `Access-Control-Allow-Origin` header value.
pub fn def_allow_origin() -> (r: String)
    ensures
        r@ == "*"@,
{
    "*".to_string()
}

/// Default network section.
pub fn def_network() -> (r: Network)
    ensures
        r.address@ == "0.0.0.0"@,
        r.port@ == "443"@,
        r.allow_origin@ == "*"@,
{
    Network { port: def_ipv4_port(), address: def_ipv4_addr(), allow_origin: def_allow_origin() }
}

/// Default worker-pool size.
pub fn def_thread_pool_size() -> (r: usize)
    ensures
        r == 4,
{
    4
}

/// Default per-read deadline in milliseconds: thirty seconds.
pub fn def_connection_timeout_millis() -> (r: u64)
    ensures
        r == 30000,
{
    30000
}

/// Default performance section.
pub fn def_performance() -> (r: Performance)
    ensures
        r.thread_pool_size == 4,
        r.connection_timeout_millis == 30000,
{
    Performance {
        thread_pool_size: def_thread_pool_size(),
        connection_timeout_millis: def_connection_timeout_millis(),
    }
}

/// Default of the https flag: on.
pub fn true_value() -> (r: bool)
    ensures
        r,
{
    true
}

/// Default path of the TLS certificate file.
pub fn def_ssl_cert_path() -> (r: String)
    ensures
        r@ == "cert.pem"@,
{
    "cert.pem".to_string()
}

/// Default path of the TLS private key file.
pub fn def_ssl_private_key_path() -> (r: String)
    ensures
        r@ == "private.pem"@,
{
    "private.pem".to_string()
}

/// Default security section.
pub fn def_security() -> (r: Security)
    ensures
        r.https,
        r.certificate_file@ == "cert.pem"@,
        r.private_key_file@ == "private.pem"@,
{
    Security {
        https: true_value(),
        certificate_file: def_ssl_cert_path(),
        private_key_file: def_ssl_private_key_path(),
    }
}

/// The network section as parsed from the document: any field may be absent.
pub struct NetworkParts {
    pub address: Option<String>,
    pub port: Option<String>,
    pub allow_origin: Option<String>,
}

/// The performance section as parsed from the document.
pub struct PerformanceParts {
    pub thread_pool_size: Option<usize>,
    pub connection_timeout_millis: Option<u64>,
}

/// The security section as parsed from the document.
pub struct SecurityParts {
    pub https: Option<bool>,
    pub certificate_file: Option<String>,
    pub private_key_file: Option<String>,
}

/// The whole document as parsed: any section may be absent.
pub struct ConfigParts {
    pub network: Option<NetworkParts>,
    pub performance: Option<PerformanceParts>,
    pub security: Option<SecurityParts>,
}

/// `r` is `p` with every absent field replaced by its documented default.
pub open spec fn network_resolved(p: NetworkParts, r: Network) -> bool {
    &&& r.address@ == (match p.address {
        Option::Some(a) => a@,
        Option::None => "0.0.0.0"@,
    })
    &&& r.port@ == (match p.port {
        Option::Some(x) => x@,
        Option::None => "443"@,
    })
    &&& r.allow_origin@ == (match p.allow_origin {
        Option::Some(x) => x@,
        Option::None => "*"@,
    })
}

/// `r` is `p` with every absent field replaced by its documented default.
pub open spec fn performance_resolved(p: PerformanceParts, r: Performance) -> bool {
    &&& r.thread_pool_size == (match p.thread_pool_size {
        Option::Some(x) => x,
        Option::None => 4usize,
    })
    &&& r.connection_timeout_millis == (match p.connection_timeout_millis {
        Option::Some(x) => x,
        Option::None => 30000u64,
    })
}

/// `r` is `p` with every absent field replaced by its documented default.
pub open spec fn security_resolved(p: SecurityParts, r: Security) -> bool {
    &&& r.https == (match p.https {
        Option::Some(x) => x,
        Option::None => true,
    })
    &&& r.certificate_file@ == (match p.certificate_file {
        Option::Some(x) => x@,
        Option::None => "cert.pem"@,
    })
    &&& r.private_key_file@ == (match p.private_key_file {
        Option::Some(x) => x@,
        Option::None => "private.pem"@,
    })
}

/// An absent section resolves as a section in which every field is absent.
pub open spec fn spec_network_parts(p: Option<NetworkParts>) -> NetworkParts {
    match p {
        Option::Some(n) => n,
        Option::None => NetworkParts { address: Option::None, port: Option::None, allow_origin: Option::None },
    }
}

/// An absent section resolves as a section in which every field is absent.
pub open spec fn spec_performance_parts(p: Option<PerformanceParts>) -> PerformanceParts {
    match p {
        Option::Some(x) => x,
        Option::None => PerformanceParts {
            thread_pool_size: Option::None,
            connection_timeout_millis: Option::None,
        },
    }
}

/// An absent section resolves as a section in which every field is absent.
pub open spec fn spec_security_parts(p: Option<SecurityParts>) -> SecurityParts {
    match p {
        Option::Some(x) => x,
        Option::None => SecurityParts {
            https: Option::None,
            certificate_file: Option::None,
            private_key_file: Option::None,
        },
    }
}

/// Fill the absent fields of a parsed network section with their defaults.
pub fn resolve_network(parts: NetworkParts) -> (r: Network)
    ensures
        network_resolved(parts, r),
{
    Network {
        address: match parts.address {
            Option::Some(a) => a,
            Option::None => def_ipv4_addr(),
        },
        port: match parts.port {
            Option::Some(p) => p,
            Option::None => def_ipv4_port(),
        },
        allow_origin: match parts.allow_origin {
            Option::Some(o) => o,
            Option::None => def_allow_origin(),
        },
    }
}

/// Fill the absent fields of a parsed performance section with their defaults.
pub fn resolve_performance(parts: PerformanceParts) -> (r: Performance)
    ensures
        performance_resolved(parts, r),
{
    Performance {
        thread_pool_size: match parts.thread_pool_size {
            Option::Some(x) => x,
            Option::None => def_thread_pool_size(),
        },
        connection_timeout_millis: match parts.connection_timeout_millis {
            Option::Some(x) => x,
            Option::None => def_connection_timeout_millis(),
        },
    }
}

/// Fill the absent fields of a parsed security section with their defaults.
pub fn resolve_security(parts: SecurityParts) -> (r: Security)
    ensures
        security_resolved(parts, r),
{
    Security {
        https: match parts.https {
            Option::Some(x) => x,
            Option::None => true_value(),
        },
        certificate_file: match parts.certificate_file {
            Option::Some(x) => x,
            Option::None => def_ssl_cert_path(),
        },
        private_key_file: match parts.private_key_file {
            Option::Some(x) => x,
            Option::None => def_ssl_private_key_path(),
        },
    }
}

/// Resolve a whole parsed document: absent sections and absent fields take
/// their documented defaults, present values are kept exactly.
pub fn resolve_config(parts: ConfigParts) -> (r: Config)
    ensures
        network_resolved(spec_network_parts(parts.network), r.network),
        performance_resolved(spec_performance_parts(parts.performance), r.performance),
        security_resolved(spec_security_parts(parts.security), r.security),
{
    Config {
        network: match parts.network {
            Option::Some(n) => resolve_network(n),
            Option::None => def_network(),
        },
        performance: match parts.performance {
            Option::Some(p) => resolve_performance(p),
            Option::None => def_performance(),
        },
        security: match parts.security {
            Option::Some(s) => resolve_security(s),
            Option::None => def_security(),
        },
    }
}

} // verus!
