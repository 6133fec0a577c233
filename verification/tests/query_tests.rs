use std::str::FromStr;

use dns_renew::address::IpAddress;
use dns_renew::config::{
    Config, DnsQueryParams, DohGoogleQueryParams, DohIetfQueryParams, DotQueryParams,
    IpProviderType, QueryProviderType,
};
use dns_renew::dns::{
    filter_candidates, choose_bind_address, record_kind_for_family, DnsAnswerData, DnsClient,
    RecordKind, Resolution, ResolveDirective, SocketAddress,
};
use dns_renew::errors::RenewError;
use dns_renew::ip::{
    init_ip_provider, interpret_reflector_body, sslip_first_ip, static_address, IpProviderInit,
};
use dns_renew::query::{
    doh_google_query_url, doh_ietf_interpret, doh_ietf_request_body, init_query_provider,
    interpret_doh_google, interpret_dns_answers, QueryProviderInit, DEFAULT_TIMEOUT_MS,
};

use hickory_proto::op::{Message, Query};
use hickory_proto::rr::rdata::{A, AAAA, TXT};
use hickory_proto::rr::{Name, RData, Record, RecordType};

fn test_config() -> Config {
    Config {
        name_conf_dir: "/etc/conf.d".to_string(),
        name_state_dir: "/var/lib/state".to_string(),
        update_credentials: vec![],
        log_timestamp: None,
    }
}

#[test]
fn udp_with_tls_is_refused() {
    assert!(matches!(
        DnsClient::new("ns.example".to_string(), None, 1000, true, true),
        Err(RenewError::InvalidTransportCombination)
    ));
}

#[test]
fn default_ports_follow_transport() {
    let plain = DnsClient::new("ns.example".to_string(), None, 1000, true, false).unwrap();
    assert_eq!(plain.effective_port(), 53);
    let tls = DnsClient::new("ns.example".to_string(), None, 1000, false, true).unwrap();
    assert_eq!(tls.effective_port(), 853);
    let fixed = DnsClient::new("ns.example".to_string(), Some(5353), 1000, true, false).unwrap();
    assert_eq!(fixed.effective_port(), 5353);
}

#[test]
fn family_filter_keeps_order() {
    let cands = vec![
        SocketAddress { ip: IpAddress::V6(1), port: 53 },
        SocketAddress { ip: IpAddress::V4(1), port: 53 },
        SocketAddress { ip: IpAddress::V4(2), port: 53 },
    ];
    let v4only = filter_candidates(&cands, Some(false));
    assert_eq!(v4only.len(), 2);
    assert_eq!(v4only[0].ip, IpAddress::V4(1));
    assert_eq!(v4only[1].ip, IpAddress::V4(2));
    let v6only = filter_candidates(&cands, Some(true));
    assert_eq!(v6only.len(), 1);
    let all = filter_candidates(&cands, None);
    assert_eq!(all.len(), 3);
}

#[test]
fn bind_address_defaults_to_unspecified_of_family() {
    assert_eq!(
        choose_bind_address(None, Some(true)),
        Some(SocketAddress { ip: IpAddress::V6(0), port: 0 })
    );
    assert_eq!(
        choose_bind_address(None, Some(false)),
        Some(SocketAddress { ip: IpAddress::V4(0), port: 0 })
    );
    assert_eq!(choose_bind_address(None, None), None);
    let explicit = SocketAddress { ip: IpAddress::V4(0x7f000001), port: 4000 };
    assert_eq!(choose_bind_address(Some(explicit), Some(true)), Some(explicit));
}

#[test]
fn fallback_tries_candidates_in_order() {
    // two candidates: the first fails, the second is attempted next and
    // its success is the query's result
    let mut r = Resolution::begin(2);
    assert_eq!(r.directive(), ResolveDirective::TryCandidate { index: 0 });
    r.record_failure();
    assert_eq!(r.directive(), ResolveDirective::TryCandidate { index: 1 });
    r.record_failure();
    assert_eq!(r.directive(), ResolveDirective::Exhausted);
}

#[test]
fn empty_candidate_list_is_empty_answer_not_error() {
    let r = Resolution::begin(0);
    assert_eq!(r.directive(), ResolveDirective::EmptyAnswer);
}

#[test]
fn record_kinds_per_family() {
    assert_eq!(record_kind_for_family(false), RecordKind::A);
    assert_eq!(record_kind_for_family(true), RecordKind::Aaaa);
}

#[test]
fn init_query_provider_applies_defaults() {
    let config = test_config();
    let dns = QueryProviderType::Dns(DnsQueryParams {
        name_server_host: "ns.example".to_string(),
        name_server_port: None,
        timeout_ms: None,
        use_tcp: None,
    });
    match init_query_provider(&dns, &config) {
        Ok(QueryProviderInit::Dns { client }) => {
            assert_eq!(client.host, "ns.example");
            assert_eq!(client.timeout_ms, DEFAULT_TIMEOUT_MS);
            assert!(client.is_udp);
            assert!(!client.is_tls);
        }
        _ => panic!("expected Dns provider"),
    }
    let dns_tcp = QueryProviderType::Dns(DnsQueryParams {
        name_server_host: "ns.example".to_string(),
        name_server_port: Some(5353),
        timeout_ms: Some(2_000),
        use_tcp: Some(true),
    });
    match init_query_provider(&dns_tcp, &config) {
        Ok(QueryProviderInit::Dns { client }) => {
            assert!(!client.is_udp);
            assert_eq!(client.port, Some(5353));
            assert_eq!(client.timeout_ms, 2_000);
        }
        _ => panic!("expected Dns provider"),
    }
    let dot = QueryProviderType::Dot(DotQueryParams {
        name_server_host: "ns.example".to_string(),
        name_server_port: None,
        timeout_ms: None,
    });
    match init_query_provider(&dot, &config) {
        Ok(QueryProviderInit::Dot { client }) => {
            assert!(client.is_tls);
            assert!(!client.is_udp);
            assert_eq!(client.effective_port(), 853);
        }
        _ => panic!("expected Dot provider"),
    }
    let doh = QueryProviderType::DohGoogle(DohGoogleQueryParams {
        url: "https://dns.google/resolve".to_string(),
        name_key: "name".to_string(),
        timeout_ms: None,
    });
    assert!(matches!(
        init_query_provider(&doh, &config),
        Ok(QueryProviderInit::DohGoogle { .. })
    ));
    let ietf = QueryProviderType::DohIetf(DohIetfQueryParams {
        url: "https://doh.example/dns-query".to_string(),
        timeout_ms: Some(500),
    });
    assert!(matches!(
        init_query_provider(&ietf, &config),
        Ok(QueryProviderInit::DohIetf { timeout_ms: 500, .. })
    ));
}

#[test]
fn doh_google_url_carries_name_parameter() {
    let u = doh_google_query_url("https://dns.google/resolve", "name", "a.example").unwrap();
    assert_eq!(u, "https://dns.google/resolve?name=a.example");
    assert!(matches!(
        doh_google_query_url("not a url", "name", "a.example"),
        Err(RenewError::UrlInvalid)
    ));
}

#[test]
fn doh_google_nxdomain_without_answers_is_empty() {
    // {Status:3, Answer:null} means zero published addresses, not an error
    let r = interpret_doh_google(3, None).unwrap();
    assert!(r.is_empty());
}

#[test]
fn doh_google_status_zero_parses_answers() {
    let r = interpret_doh_google(0, Some(vec!["1.2.3.4".to_string(), "::1".to_string()])).unwrap();
    assert_eq!(r, vec![IpAddress::V4(0x01020304), IpAddress::V6(1)]);
}

#[test]
fn doh_google_other_status_is_error() {
    assert!(matches!(
        interpret_doh_google(2, None),
        Err(RenewError::DohStatus { status: 2 })
    ));
}

#[test]
fn doh_google_bad_answer_text_is_error() {
    assert!(matches!(
        interpret_doh_google(0, Some(vec!["not-an-ip".to_string()])),
        Err(RenewError::InvalidAddressLiteral)
    ));
}

#[test]
fn doh_ietf_body_is_a_cacheable_standard_query() {
    let body = doh_ietf_request_body("example.com", false).unwrap();
    let m = Message::from_vec(&body).expect("the body must be a DNS message");
    assert_eq!(m.id(), 0);
    assert!(m.recursion_desired());
    let q = &m.queries()[0];
    assert_eq!(q.query_type(), RecordType::A);
    assert_eq!(q.name(), &Name::from_str("example.com").unwrap());
    let body6 = doh_ietf_request_body("example.com", true).unwrap();
    let m6 = Message::from_vec(&body6).expect("the v6 body must be a DNS message");
    assert_eq!(m6.queries()[0].query_type(), RecordType::AAAA);
}

#[test]
fn doh_ietf_response_yields_address_records_only() {
    let mut m = Message::new();
    m.add_query(Query::query(Name::from_str("a.example.").unwrap(), RecordType::A));
    m.add_answer(Record::from_rdata(
        Name::from_str("a.example.").unwrap(),
        60,
        RData::A(A::new(1, 2, 3, 4)),
    ));
    m.add_answer(Record::from_rdata(
        Name::from_str("a.example.").unwrap(),
        60,
        RData::TXT(TXT::new(vec!["ignored".to_string()])),
    ));
    m.add_answer(Record::from_rdata(
        Name::from_str("a.example.").unwrap(),
        60,
        RData::AAAA(AAAA::from_str("::1").unwrap()),
    ));
    let body = m.to_vec().unwrap();
    let ips = doh_ietf_interpret(&body).unwrap();
    assert_eq!(ips, vec![IpAddress::V4(0x01020304), IpAddress::V6(1)]);
}

#[test]
fn doh_ietf_garbage_is_a_decode_error() {
    assert!(matches!(
        doh_ietf_interpret(&[0xff, 0x01]),
        Err(RenewError::DnsDecodeFailed)
    ));
}

#[test]
fn dns_answers_reduce_to_addresses() {
    let answers = vec![
        DnsAnswerData::Other,
        DnsAnswerData::V4(7),
        DnsAnswerData::Txt(vec![b"x".to_vec()]),
        DnsAnswerData::V6(9),
    ];
    assert_eq!(
        interpret_dns_answers(&answers),
        vec![IpAddress::V4(7), IpAddress::V6(9)]
    );
}

#[test]
fn static_provider_checks_family() {
    let ip = IpAddress::V4(0x01020304);
    assert_eq!(static_address(&ip, false).unwrap(), ip);
    assert!(matches!(
        static_address(&ip, true),
        Err(RenewError::AddressFamilyMismatch)
    ));
    let ip6 = IpAddress::V6(1);
    assert_eq!(static_address(&ip6, true).unwrap(), ip6);
    assert!(matches!(
        static_address(&ip6, false),
        Err(RenewError::AddressFamilyMismatch)
    ));
}

#[test]
fn reflector_body_is_trimmed_and_family_checked() {
    assert_eq!(
        interpret_reflector_body(" 1.2.3.4\n", false).unwrap(),
        IpAddress::V4(0x01020304)
    );
    assert!(matches!(
        interpret_reflector_body("1.2.3.4", true),
        Err(RenewError::AddressFamilyMismatch)
    ));
    assert!(matches!(
        interpret_reflector_body("::1\n", true),
        Ok(IpAddress::V6(1))
    ));
    assert!(matches!(
        interpret_reflector_body("<html>", false),
        Err(RenewError::InvalidAddressLiteral)
    ));
}

#[test]
fn sslip_takes_first_parseable_txt_record() {
    let answers = vec![
        DnsAnswerData::V4(1),
        DnsAnswerData::Txt(vec![b"not an ip".to_vec()]),
        DnsAnswerData::Txt(vec![b"\"1.2.".to_vec(), b"3.4\"".to_vec()]),
        DnsAnswerData::Txt(vec![b"5.6.7.8".to_vec()]),
    ];
    // the malformed record is skipped, not fatal; segments of one record
    // are concatenated and surrounding quotes shed
    assert_eq!(sslip_first_ip(&answers).unwrap(), IpAddress::V4(0x01020304));
}

#[test]
fn sslip_without_usable_record_fails() {
    let answers = vec![
        DnsAnswerData::V4(1),
        DnsAnswerData::Txt(vec![vec![0xC0u8, 0x00u8]]),
        DnsAnswerData::Txt(vec![b"nope".to_vec()]),
    ];
    assert!(matches!(
        sslip_first_ip(&answers),
        Err(RenewError::NoAddressInAnswers)
    ));
    assert!(matches!(
        sslip_first_ip(&vec![]),
        Err(RenewError::NoAddressInAnswers)
    ));
}

#[test]
fn init_ip_provider_applies_defaults() {
    let config = test_config();
    let st = IpProviderType::Static { ip: IpAddress::V6(1) };
    assert!(matches!(
        init_ip_provider(&st, &config),
        Ok(IpProviderInit::Static { ip: IpAddress::V6(1) })
    ));
    let ifc = IpProviderType::IfconfigIo { url: "https://ifconfig.io".to_string(), timeout_ms: None };
    match init_ip_provider(&ifc, &config) {
        Ok(IpProviderInit::IfconfigIo { url, timeout_ms }) => {
            assert_eq!(url, "https://ifconfig.io");
            assert_eq!(timeout_ms, DEFAULT_TIMEOUT_MS);
        }
        _ => panic!("expected IfconfigIo provider"),
    }
    let sslip = IpProviderType::SslipIo {
        name_server_host: "ns.sslip.io".to_string(),
        name_server_port: None,
        name: "ip.sslip.io".to_string(),
        timeout_ms: Some(3_000),
    };
    match init_ip_provider(&sslip, &config) {
        Ok(IpProviderInit::SslipIo { client, name }) => {
            assert_eq!(name, "ip.sslip.io");
            assert!(client.is_udp);
            assert!(!client.is_tls);
            assert_eq!(client.timeout_ms, 3_000);
            assert_eq!(client.effective_port(), 53);
        }
        _ => panic!("expected SslipIo provider"),
    }
}

#[test]
fn doh_google_empty_answer_list_is_empty() {
    let r = interpret_doh_google(0, Some(vec![])).unwrap();
    assert!(r.is_empty());
}

#[test]
fn no_answers_reduce_to_no_addresses() {
    assert!(interpret_dns_answers(&vec![]).is_empty());
}
