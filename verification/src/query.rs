use vstd::prelude::*;
use crate::address::{ip_from_text, IpAddress};
use crate::config::{Config, QueryProviderType};
use crate::dns::{dns_answer_records, extracted_from, DnsAnswerData, DnsClient};
use crate::errors::RenewError;

verus! {

/// The timeout a provider falls back to when none is configured.
pub const DEFAULT_TIMEOUT_MS: u64 = 10_000;

/// One query provider, resolved to plain values with its defaults
/// applied: a DNS client for the plain and TLS transports, or the
/// endpoint of one of the two DNS-over-HTTPS forms.
pub enum QueryProviderInit {
    Dns { client: DnsClient },
    DohGoogle { url: String, name_key: String, timeout_ms: u64 },
    DohIetf { url: String, timeout_ms: u64 },
    Dot { client: DnsClient },
}

/// Builds the query provider of a family from its configuration. The
/// plain DNS variant speaks UDP unless `use_tcp` is set; the DoT variant
/// always speaks TLS.
pub fn init_query_provider(query_provider_type: &QueryProviderType, config: &Config) -> (r: Result<
    QueryProviderInit,
    RenewError,
>)
    ensures
        query_provider_type matches QueryProviderType::Dns(p) ==> (r matches Ok(
            QueryProviderInit::Dns { client },
        ) && client.host@ == p.name_server_host@ && client.port == p.name_server_port
            && client.timeout_ms == (match p.timeout_ms {
            Some(t) => t,
            None => DEFAULT_TIMEOUT_MS,
        }) && client.is_udp == (match p.use_tcp {
            Some(t) => !t,
            None => true,
        }) && client.is_tls == false),
        query_provider_type matches QueryProviderType::DohGoogle(p) ==> (r matches Ok(
            QueryProviderInit::DohGoogle { url, name_key, timeout_ms },
        ) && url@ == p.url@ && name_key@ == p.name_key@ && timeout_ms == (match p.timeout_ms {
            Some(t) => t,
            None => DEFAULT_TIMEOUT_MS,
        })),
        query_provider_type matches QueryProviderType::DohIetf(p) ==> (r matches Ok(
            QueryProviderInit::DohIetf { url, timeout_ms },
        ) && url@ == p.url@ && timeout_ms == (match p.timeout_ms {
            Some(t) => t,
            None => DEFAULT_TIMEOUT_MS,
        })),
        query_provider_type matches QueryProviderType::Dot(p) ==> (r matches Ok(
            QueryProviderInit::Dot { client },
        ) && client.host@ == p.name_server_host@ && client.port == p.name_server_port
            && client.timeout_ms == (match p.timeout_ms {
            Some(t) => t,
            None => DEFAULT_TIMEOUT_MS,
        }) && client.is_udp == false && client.is_tls == true),
{
    let _ = config;
    match query_provider_type {
        QueryProviderType::Dns(p) => {
            let use_tcp = match p.use_tcp {
                Some(t) => t,
                None => false,
            };
            match DnsClient::new(
                p.name_server_host.clone(),
                p.name_server_port,
                match p.timeout_ms {
                    Some(t) => t,
                    None => DEFAULT_TIMEOUT_MS,
                },
                !use_tcp,
                false,
            ) {
                Ok(client) => Ok(QueryProviderInit::Dns { client }),
                Err(_) => vstd::pervasive::unreached(),
            }
        },
        QueryProviderType::DohGoogle(p) => Ok(
            QueryProviderInit::DohGoogle {
                url: p.url.clone(),
                name_key: p.name_key.clone(),
                timeout_ms: match p.timeout_ms {
                    Some(t) => t,
                    None => DEFAULT_TIMEOUT_MS,
                },
            },
        ),
        QueryProviderType::DohIetf(p) => Ok(
            QueryProviderInit::DohIetf {
                url: p.url.clone(),
                timeout_ms: match p.timeout_ms {
                    Some(t) => t,
                    None => DEFAULT_TIMEOUT_MS,
                },
            },
        ),
        QueryProviderType::Dot(p) => {
            match DnsClient::new(
                p.name_server_host.clone(),
                p.name_server_port,
                match p.timeout_ms {
                    Some(t) => t,
                    None => DEFAULT_TIMEOUT_MS,
                },
                false,
                true,
            ) {
                Ok(client) => Ok(QueryProviderInit::Dot { client }),
                Err(_) => vstd::pervasive::unreached(),
            }
        },
    }
}

/// What extending a URL's query string with one key=value pair yields;
/// nothing when the URL itself does not parse.
pub uninterp spec fn url_with_query_param(
    url: Seq<char>,
    key: Seq<char>,
    value: Seq<char>,
) -> Option<Seq<char>>;

/// Relies on reqwest::Url::parse_with_params: it parses the absolute URL
/// and appends the one pair, percent-encoded, to the query string; the
/// result is a pure function of the three texts, and the call fails
/// exactly when the URL does not parse.
#[verifier::external_body]
fn url_append_param(url: &str, key: &str, value: &str) -> (r: Result<String, RenewError>)
    ensures
        r matches Ok(u) ==> url_with_query_param(url@, key@, value@) == Some(u@),
        r is Err ==> url_with_query_param(url@, key@, value@) is None && r matches Err(
            RenewError::UrlInvalid,
        ),
{
    match reqwest::Url::parse_with_params(url, &[(key, value)]) {
        Ok(u) => Ok(String::from(u)),
        Err(_) => Err(RenewError::UrlInvalid),
    }
}

/// The URL a Google-form DNS-over-HTTPS query fetches: the configured
/// endpoint with the queried name under the configured parameter key.
pub fn doh_google_query_url(url: &str, name_key: &str, name: &str) -> (r: Result<
    String,
    RenewError,
>)
    ensures
        match url_with_query_param(url@, name_key@, name@) {
            Some(u) => r matches Ok(x) && x@ == u,
            None => r matches Err(RenewError::UrlInvalid),
        },
{
    url_append_param(url, name_key, name)
}

/// The addresses the answer texts spell, from `i` on, in order; nothing
/// as soon as one of them is no address literal.
pub open spec fn parsed_answers_from(datas: Seq<Seq<char>>, i: int) -> Option<Seq<IpAddress>>
    decreases datas.len() - i when 0 <= i <= datas.len()
{
    if i >= datas.len() {
        Some(Seq::empty())
    } else {
        match ip_from_text(datas[i]) {
            None => None,
            Some(ip) => match parsed_answers_from(datas, i + 1) {
                None => None,
                Some(rest) => Some(seq![ip] + rest),
            },
        }
    }
}

fn parse_answers_from(datas: &Vec<String>, i: usize) -> (r: Result<Vec<IpAddress>, RenewError>)
    requires
        i <= datas@.len(),
    ensures
        match parsed_answers_from(datas.deep_view(), i as int) {
            Some(ips) => r matches Ok(v) && v@ == ips,
            None => r matches Err(RenewError::InvalidAddressLiteral),
        },
    decreases datas@.len() - i,
{
    proof {
        assert(datas.deep_view().len() == datas@.len());
    }
    if i >= datas.len() {
        Ok(Vec::new())
    } else {
        proof {
            assert(datas.deep_view()[i as int] == datas@[i as int]@);
        }
        match crate::address::parse_ip_literal(datas[i].as_str()) {
            None => Err(RenewError::InvalidAddressLiteral),
            Some(ip) => match parse_answers_from(datas, i + 1) {
                Ok(mut rest) => {
                    rest.insert(0, ip);
                    assert(rest@ =~= seq![ip] + rest@.subrange(1, rest@.len() as int));
                    Ok(rest)
                },
                Err(e) => Err(e),
            },
        }
    }
}

/// What a Google-form DNS-over-HTTPS response means. Status 0 (NOERROR)
/// and 3 (NXDOMAIN) are both valid outcomes and any other status is a
/// failure; an absent answer list means zero published addresses, not an
/// error; each answer's data text must spell an address.
pub fn interpret_doh_google(status: i64, answers: Option<Vec<String>>) -> (r: Result<
    Vec<IpAddress>,
    RenewError,
>)
    ensures
        !(status == 0 || status == 3) ==> (r matches Err(RenewError::DohStatus { status: s }) && s
            == status),
        (status == 0 || status == 3) && answers is None ==> (r matches Ok(v) && v@.len() == 0),
        (status == 0 || status == 3) ==> (answers matches Some(ds) ==> (match parsed_answers_from(
            ds.deep_view(),
            0,
        ) {
            Some(ips) => r matches Ok(v) && v@ == ips,
            None => r matches Err(RenewError::InvalidAddressLiteral),
        })),
{
    if !(status == 0 || status == 3) {
        return Err(RenewError::DohStatus { status });
    }
    match answers {
        None => Ok(Vec::new()),
        Some(ds) => parse_answers_from(&ds, 0),
    }
}

/// The body an IETF-form DNS-over-HTTPS query posts: the wire encoding
/// of the standard query, with the transaction id fixed at zero so HTTP
/// caches can serve it.
pub fn doh_ietf_request_body(name: &str, is_v6: bool) -> (r: Result<Vec<u8>, RenewError>)
    ensures
        r matches Ok(b) ==> crate::dns::dns_query_encoding(name@, is_v6) == Some(b@),
        r is Err ==> crate::dns::dns_query_encoding(name@, is_v6) is None && r matches Err(
            RenewError::DnsEncodeFailed,
        ),
{
    crate::dns::encode_dns_query(name, is_v6)
}

/// What an IETF-form DNS-over-HTTPS response body means: the wire-format
/// message's A and AAAA answers, in order; a body that is no DNS message
/// is a failure.
pub fn doh_ietf_interpret(body: &[u8]) -> (r: Result<Vec<IpAddress>, RenewError>)
    ensures
        match dns_answer_records(body@) {
            Some(ans) => r matches Ok(v) && v@ == extracted_from(ans, 0),
            None => r matches Err(RenewError::DnsDecodeFailed),
        },
{
    match crate::dns::decode_dns_answers(body) {
        Ok(answers) => Ok(crate::dns::extract_addresses(&answers)),
        Err(e) => Err(e),
    }
}

/// The answers of a DNS-backed query, reduced to addresses: what the
/// plain DNS and DoT providers do with a response, whatever transport
/// carried it.
pub fn interpret_dns_answers(answers: &Vec<DnsAnswerData>) -> (r: Vec<IpAddress>)
    ensures
        r@ == extracted_from(answers.deep_view(), 0),
{
    crate::dns::extract_addresses(answers)
}

} // verus!
