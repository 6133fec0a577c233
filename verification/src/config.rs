use vstd::prelude::*;
use crate::address::IpAddress;

verus! {

/// The global configuration: where per-name configuration and state files
/// live, the shared credential table, and whether log lines carry a
/// timestamp. The unverified shell loads it and hands it in as plain
/// values; the credential table is read-only afterwards.
pub struct Config {
    pub name_conf_dir: String,
    pub name_state_dir: String,
    pub update_credentials: Vec<(String, UpdateCredential)>,
    pub log_timestamp: Option<bool>,
}

/// A credential an update provider may reference by name.
#[derive(Debug, Clone)]
pub enum UpdateCredential {
    HttpBasicAuth(HttpBasicAuthCredential),
    HttpBearerToken { token: String },
}

#[derive(Debug, Clone)]
pub struct HttpBasicAuthCredential {
    pub username: String,
    pub password: Option<String>,
}

/// The per-name configuration: how often to renew, and the provider
/// blocks per address family. When a family has no block of its own and
/// `shared` is set, the other family's block stands in.
pub struct NameConf {
    pub name: String,
    pub renew_interval_secs: u64,
    pub shared: bool,
    pub v4: Option<NameProvidersConf>,
    pub v6: Option<NameProvidersConf>,
}

/// The three providers of one address family, and whether the family is
/// enabled at all.
#[derive(Clone)]
pub struct NameProvidersConf {
    pub update_provider_type: UpdateProviderType,
    pub query_provider_type: QueryProviderType,
    pub ip_provider_type: IpProviderType,
    pub enabled: bool,
}

/// How an address is pushed to the authoritative store.
#[derive(Clone)]
pub enum UpdateProviderType {
    HttpGet {
        credential: Option<String>,
        url_template: String,
    },
    HttpPlainBody {
        credential: Option<String>,
        url: String,
        method: String,
        content_type: String,
        body_template: String,
    },
    Cloudflare {
        credential: String,
        zone_id: String,
        proxied: Option<bool>,
        ttl: Option<u32>,
        comment: Option<String>,
    },
}

/// How the currently published addresses of a name are looked up.
#[derive(Clone)]
pub enum QueryProviderType {
    Dns(DnsQueryParams),
    DohGoogle(DohGoogleQueryParams),
    DohIetf(DohIetfQueryParams),
    Dot(DotQueryParams),
}

#[derive(Clone)]
pub struct DnsQueryParams {
    pub name_server_host: String,
    pub name_server_port: Option<u16>,
    pub timeout_ms: Option<u64>,
    pub use_tcp: Option<bool>,
}

#[derive(Clone)]
pub struct DohGoogleQueryParams {
    pub url: String,
    pub name_key: String,
    pub timeout_ms: Option<u64>,
}

#[derive(Clone)]
pub struct DohIetfQueryParams {
    pub url: String,
    pub timeout_ms: Option<u64>,
}

#[derive(Clone)]
pub struct DotQueryParams {
    pub name_server_host: String,
    pub name_server_port: Option<u16>,
    pub timeout_ms: Option<u64>,
}

/// How the caller's current true address is learned.
#[derive(Clone)]
pub enum IpProviderType {
    Static {
        ip: IpAddress,
    },
    IfconfigIo {
        url: String,
        timeout_ms: Option<u64>,
    },
    SslipIo {
        name_server_host: String,
        name_server_port: Option<u16>,
        name: String,
        timeout_ms: Option<u64>,
    },
}

/// The persisted schedule of one name: the name it was written for and
/// the absolute epoch-seconds deadline of the next renewal. It is
/// rewritten once per fully successful cycle, never merely copied
/// forward.
#[derive(Debug, Clone)]
pub struct NameState {
    pub name: String,
    pub next: u64,
}

impl NameState {
    pub fn new(name: &str, next: u64) -> (r: Self)
        ensures
            r.name@ == name@,
            r.next == next,
    {
        NameState { name: name.to_owned(), next }
    }
}

} // verus!
