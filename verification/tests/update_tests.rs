use dns_renew::address::IpAddress;
use dns_renew::config::{Config, HttpBasicAuthCredential, UpdateCredential, UpdateProviderType};
use dns_renew::errors::RenewError;
use dns_renew::update::{
    check_envelope, find_optional_update_credential, find_update_credential,
    init_update_provider, interpret_update_status, parse_body_method, CfDecision, CfRecord,
    CloudflareUpdateProvider, HttpGetUpdateProvider, HttpMethod, HttpPlainBodyUpdateProvider, UpdateProviderInit,
};

fn config_with(creds: Vec<(String, UpdateCredential)>) -> Config {
    Config {
        name_conf_dir: "/etc/conf.d".to_string(),
        name_state_dir: "/var/lib/state".to_string(),
        update_credentials: creds,
        log_timestamp: None,
    }
}

fn bearer(name: &str, token: &str) -> (String, UpdateCredential) {
    (name.to_string(), UpdateCredential::HttpBearerToken { token: token.to_string() })
}

fn basic(name: &str) -> (String, UpdateCredential) {
    (
        name.to_string(),
        UpdateCredential::HttpBasicAuth(HttpBasicAuthCredential {
            username: "u".to_string(),
            password: Some("SECRET-REDACTED".to_string()),
        }),
    )
}

fn updater(proxied: bool, ttl: Option<u32>, comment: Option<&str>) -> CloudflareUpdateProvider {
    CloudflareUpdateProvider {
        token: "tok".to_string(),
        zone_id: "z1".to_string(),
        proxied,
        ttl,
        comment: comment.map(|c| c.to_string()),
    }
}

fn record(content: &str, proxied: bool, ttl: u32, comment: Option<&str>) -> CfRecord {
    CfRecord {
        comment: comment.map(|c| c.to_string()),
        name: "a.example".to_string(),
        proxied,
        ttl,
        content: content.to_string(),
        record_type: "A".to_string(),
        id: Some("rec1".to_string()),
    }
}

#[test]
fn credentials_are_found_by_name() {
    let config = config_with(vec![bearer("cf", "tok"), basic("web")]);
    assert!(matches!(
        find_update_credential(&config, "cf"),
        Ok(UpdateCredential::HttpBearerToken { .. })
    ));
    assert!(matches!(
        find_update_credential(&config, "web"),
        Ok(UpdateCredential::HttpBasicAuth(_))
    ));
    assert!(matches!(
        find_update_credential(&config, "nope"),
        Err(RenewError::CredentialNotFound)
    ));
}

#[test]
fn optional_credential_reference() {
    let config = config_with(vec![bearer("cf", "tok")]);
    assert!(matches!(find_optional_update_credential(&config, &None), Ok(None)));
    assert!(matches!(
        find_optional_update_credential(&config, &Some("cf".to_string())),
        Ok(Some(_))
    ));
    assert!(matches!(
        find_optional_update_credential(&config, &Some("nope".to_string())),
        Err(RenewError::CredentialNotFound)
    ));
}

#[test]
fn methods_parse_ignoring_case() {
    assert!(matches!(parse_body_method("POST"), Ok(HttpMethod::Post)));
    assert!(matches!(parse_body_method("post"), Ok(HttpMethod::Post)));
    assert!(matches!(parse_body_method("Put"), Ok(HttpMethod::Put)));
    assert!(matches!(parse_body_method("pAtCh"), Ok(HttpMethod::Patch)));
    assert!(matches!(parse_body_method("GET"), Err(RenewError::UnsupportedMethod)));
    assert!(matches!(parse_body_method("DELETE"), Err(RenewError::UnsupportedMethod)));
    assert!(matches!(parse_body_method(""), Err(RenewError::UnsupportedMethod)));
}

#[test]
fn url_template_renders_name_and_ip() {
    let u = HttpGetUpdateProvider {
        credential: None,
        url_template: "https://up.example/set?host={name}&addr={ip}".to_string(),
    };
    let plan = u.prepare("a.example", &IpAddress::V4(0x01020304)).unwrap();
    assert_eq!(plan.url, "https://up.example/set?host=a.example&addr=1.2.3.4");
    assert!(matches!(plan.method, HttpMethod::Get));
    assert!(plan.body.is_none());
    assert!(plan.content_type.is_none());
}

#[test]
fn unknown_template_key_fails() {
    let u = HttpGetUpdateProvider {
        credential: None,
        url_template: "https://up.example/{nope}".to_string(),
    };
    assert!(matches!(
        u.prepare("a.example", &IpAddress::V4(1)),
        Err(RenewError::TemplateFailed)
    ));
}

#[test]
fn body_template_renders_v6_text() {
    let u = HttpPlainBodyUpdateProvider {
        credential: None,
        url: "https://up.example/api".to_string(),
        method: HttpMethod::Put,
        content_type: "text/plain".to_string(),
        body_template: "{name}={ip}".to_string(),
    };
    let plan = u.prepare("a.example", &IpAddress::V6(1)).unwrap();
    assert_eq!(plan.url, "https://up.example/api");
    assert_eq!(plan.body.as_deref(), Some("a.example=::1"));
    assert_eq!(plan.content_type.as_deref(), Some("text/plain"));
    assert!(matches!(plan.method, HttpMethod::Put));
}

#[test]
fn update_status_interpretation() {
    assert!(matches!(interpret_update_status(200), Ok(true)));
    assert!(matches!(interpret_update_status(204), Ok(true)));
    assert!(matches!(interpret_update_status(299), Ok(true)));
    assert!(matches!(interpret_update_status(301), Err(RenewError::HttpStatus { status: 301 })));
    assert!(matches!(interpret_update_status(404), Err(RenewError::HttpStatus { status: 404 })));
    assert!(matches!(interpret_update_status(199), Err(RenewError::HttpStatus { status: 199 })));
}

#[test]
fn cloudflare_urls() {
    let u = updater(false, None, None);
    assert_eq!(
        u.records_url(),
        "https://api.cloudflare.com/client/v4/zones/z1/dns_records"
    );
    assert_eq!(
        u.record_url("rec1"),
        "https://api.cloudflare.com/client/v4/zones/z1/dns_records/rec1"
    );
}

#[test]
fn cloudflare_record_types() {
    assert_eq!(CloudflareUpdateProvider::record_type(false), "A");
    assert_eq!(CloudflareUpdateProvider::record_type(true), "AAAA");
}

#[test]
fn proxied_ttl_difference_forces_no_write() {
    // proxied = true, differing ttl, identical content, proxied flag and
    // comment: no update call is issued
    let u = updater(true, Some(60), Some("c"));
    let old = record("1.2.3.4", true, 300, Some("c"));
    assert!(!u.needs_update(&old, &IpAddress::V4(0x01020304)));
    assert!(matches!(
        u.decide("a.example", Some(old), &IpAddress::V4(0x01020304)),
        Ok(CfDecision::NoChange)
    ));
}

#[test]
fn unproxied_ttl_difference_forces_write() {
    let u = updater(false, Some(60), Some("c"));
    let old = record("1.2.3.4", false, 300, Some("c"));
    assert!(u.needs_update(&old, &IpAddress::V4(0x01020304)));
    match u.decide("a.example", Some(old), &IpAddress::V4(0x01020304)) {
        Ok(CfDecision::Rewrite { id, record }) => {
            assert_eq!(id, "rec1");
            assert_eq!(record.ttl, 60);
            assert_eq!(record.content, "1.2.3.4");
            assert!(record.id.is_none());
        }
        _ => panic!("expected Rewrite"),
    }
}

#[test]
fn content_change_is_rewritten_with_id_kept() {
    let u = updater(false, None, None);
    let old = record("9.9.9.9", false, 300, None);
    match u.decide("a.example", Some(old), &IpAddress::V4(0x01020304)) {
        Ok(CfDecision::Rewrite { id, record }) => {
            assert_eq!(id, "rec1");
            assert_eq!(record.content, "1.2.3.4");
            // no configured ttl: the existing one is kept
            assert_eq!(record.ttl, 300);
            assert_eq!(record.name, "a.example");
        }
        _ => panic!("expected Rewrite"),
    }
}

#[test]
fn missing_record_is_created_with_defaults() {
    let u = updater(true, None, Some("managed"));
    match u.decide("a.example", None, &IpAddress::V6(1)) {
        Ok(CfDecision::CreateNew { record }) => {
            assert_eq!(record.content, "::1");
            assert_eq!(record.record_type, "AAAA");
            assert_eq!(record.ttl, 300);
            assert!(record.proxied);
            assert_eq!(record.comment.as_deref(), Some("managed"));
            assert!(record.id.is_none());
        }
        _ => panic!("expected CreateNew"),
    }
}

#[test]
fn record_without_id_cannot_be_rewritten() {
    let u = updater(false, None, None);
    let mut old = record("9.9.9.9", false, 300, None);
    old.id = None;
    assert!(matches!(
        u.decide("a.example", Some(old), &IpAddress::V4(1)),
        Err(RenewError::RecordMissingId)
    ));
}

#[test]
fn comment_change_forces_write() {
    let u = updater(true, None, Some("new"));
    let old = record("1.2.3.4", true, 300, Some("old"));
    assert!(u.needs_update(&old, &IpAddress::V4(0x01020304)));
}

#[test]
fn envelope_check() {
    assert!(matches!(check_envelope(200, true, vec![]), Ok(())));
    assert!(matches!(
        check_envelope(403, true, vec![]),
        Err(RenewError::HttpStatus { status: 403 })
    ));
    assert!(matches!(
        check_envelope(200, false, vec![]),
        Err(RenewError::ApiRejected { .. })
    ));
}

#[test]
fn init_http_get_provider() {
    let config = config_with(vec![bearer("cf", "tok")]);
    let t = UpdateProviderType::HttpGet {
        credential: Some("cf".to_string()),
        url_template: "https://u/{name}".to_string(),
    };
    match init_update_provider(&t, &config) {
        Ok(UpdateProviderInit::HttpGet(u)) => {
            assert_eq!(u.url_template, "https://u/{name}");
            assert!(matches!(u.credential, Some(UpdateCredential::HttpBearerToken { .. })));
        }
        _ => panic!("expected HttpGet provider"),
    }
}

#[test]
fn init_plain_body_provider_validates_method() {
    let config = config_with(vec![]);
    let t = UpdateProviderType::HttpPlainBody {
        credential: None,
        url: "https://u".to_string(),
        method: "delete".to_string(),
        content_type: "text/plain".to_string(),
        body_template: "{ip}".to_string(),
    };
    assert!(matches!(init_update_provider(&t, &config), Err(RenewError::UnsupportedMethod)));
}

#[test]
fn init_cloudflare_provider_needs_bearer_token() {
    let t = UpdateProviderType::Cloudflare {
        credential: "cred".to_string(),
        zone_id: "z1".to_string(),
        proxied: None,
        ttl: Some(120),
        comment: None,
    };
    let with_basic = config_with(vec![basic("cred")]);
    assert!(matches!(
        init_update_provider(&t, &with_basic),
        Err(RenewError::CredentialKindUnsupported)
    ));
    let with_bearer = config_with(vec![bearer("cred", "tok")]);
    match init_update_provider(&t, &with_bearer) {
        Ok(UpdateProviderInit::Cloudflare(u)) => {
            assert_eq!(u.token, "tok");
            assert_eq!(u.zone_id, "z1");
            assert!(!u.proxied);
            assert_eq!(u.ttl, Some(120));
        }
        _ => panic!("expected Cloudflare provider"),
    }
    let missing = config_with(vec![]);
    assert!(matches!(
        init_update_provider(&t, &missing),
        Err(RenewError::CredentialNotFound)
    ));
}
