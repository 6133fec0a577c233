use vstd::prelude::*;
use vstd::string::StringExecFns;
use crate::address::{ip_text, ip_to_string, IpAddress};
use crate::config::{Config, UpdateCredential, UpdateProviderType};
use crate::errors::{CfApiError, RenewError};
use crate::text::{eq_ignore_ascii_case, str_equal, str_equal_ignore_ascii_case};

verus! {

/// First credential of the table under the given name, scanning from `i`.
pub open spec fn find_credential_from(
    table: Seq<(String, UpdateCredential)>,
    i: int,
    name: Seq<char>,
) -> Option<UpdateCredential>
    decreases table.len() - i when 0 <= i <= table.len()
{
    if i >= table.len() {
        None
    } else if table[i].0@ == name {
        Some(table[i].1)
    } else {
        find_credential_from(table, i + 1, name)
    }
}

/// First credential of the table under the given name.
pub open spec fn find_credential(
    table: Seq<(String, UpdateCredential)>,
    name: Seq<char>,
) -> Option<UpdateCredential> {
    find_credential_from(table, 0, name)
}

fn find_from<'a>(table: &'a Vec<(String, UpdateCredential)>, i: usize, name: &str) -> (r: Option<
    &'a UpdateCredential,
>)
    requires
        i <= table@.len(),
    ensures
        match find_credential_from(table@, i as int, name@) {
            Some(c) => r matches Some(x) && *x == c,
            None => r is None,
        },
    decreases table@.len() - i,
{
    if i >= table.len() {
        None
    } else if str_equal(table[i].0.as_str(), name) {
        Some(&table[i].1)
    } else {
        find_from(table, i + 1, name)
    }
}

/// Looks a referenced credential up in the table; a reference that
/// resolves to nothing is a configuration error.
pub fn find_update_credential<'a>(config: &'a Config, credential: &str) -> (r: Result<
    &'a UpdateCredential,
    RenewError,
>)
    ensures
        match find_credential(config.update_credentials@, credential@) {
            Some(c) => r matches Ok(x) && *x == c,
            None => r matches Err(RenewError::CredentialNotFound),
        },
{
    match find_from(&config.update_credentials, 0, credential) {
        Some(c) => Ok(c),
        None => Err(RenewError::CredentialNotFound),
    }
}

/// What an optional credential reference resolves to: `None` when the
/// reference names nothing, else the resolved credential (or no
/// credential where none was referenced).
pub open spec fn optional_credential(
    table: Seq<(String, UpdateCredential)>,
    name: Option<String>,
) -> Option<Option<UpdateCredential>> {
    match name {
        None => Some(None),
        Some(n) => match find_credential(table, n@) {
            Some(c) => Some(Some(c)),
            None => None,
        },
    }
}

/// Looks an optional credential reference up; only a reference that
/// resolves to nothing is an error.
pub fn find_optional_update_credential<'a>(config: &'a Config, credential: &Option<String>) -> (r:
    Result<Option<&'a UpdateCredential>, RenewError>)
    ensures
        match optional_credential(config.update_credentials@, *credential) {
            Some(oc) => r matches Ok(x) && (match oc {
                Some(c) => x matches Some(y) && *y == c,
                None => x is None,
            }),
            None => r matches Err(RenewError::CredentialNotFound),
        },
{
    match credential {
        Some(name) => match find_update_credential(config, name.as_str()) {
            Ok(c) => Ok(Some(c)),
            Err(e) => Err(e),
        },
        None => Ok(None),
    }
}

/// Rebuilds a credential value; the copy equals what it was made from.
pub fn clone_credential(c: &UpdateCredential) -> (r: UpdateCredential)
    ensures
        r == *c,
{
    match c {
        UpdateCredential::HttpBasicAuth(b) => UpdateCredential::HttpBasicAuth(
            crate::config::HttpBasicAuthCredential {
                username: b.username.clone(),
                password: match &b.password {
                    Some(p) => Some(p.clone()),
                    None => None,
                },
            },
        ),
        UpdateCredential::HttpBearerToken { token } => UpdateCredential::HttpBearerToken {
            token: token.clone(),
        },
    }
}

fn clone_opt_string(o: &Option<String>) -> (r: Option<String>)
    ensures
        r == *o,
{
    match o {
        Some(s) => Some(s.clone()),
        None => None,
    }
}

fn clone_opt_credential(o: &Option<&UpdateCredential>) -> (r: Option<UpdateCredential>)
    ensures
        match *o {
            Some(c) => r matches Some(x) && x == *c,
            None => r is None,
        },
{
    match o {
        Some(c) => Some(clone_credential(c)),
        None => None,
    }
}

/// The HTTP methods a plain-body update may use, plus GET for the
/// URL-only update.
#[derive(Clone, Copy, Debug, PartialEq, Eq, Structural)]
pub enum HttpMethod {
    Get,
    Post,
    Put,
    Patch,
}

/// Which method a configured method string means: POST, PUT or PATCH,
/// compared ignoring ASCII case. Anything else is unsupported.
pub open spec fn method_of(s: Seq<char>) -> Option<HttpMethod> {
    if eq_ignore_ascii_case(s, "POST"@) {
        Some(HttpMethod::Post)
    } else if eq_ignore_ascii_case(s, "PUT"@) {
        Some(HttpMethod::Put)
    } else if eq_ignore_ascii_case(s, "PATCH"@) {
        Some(HttpMethod::Patch)
    } else {
        None
    }
}

/// Parses the configured method of a plain-body update.
pub fn parse_body_method(s: &str) -> (r: Result<HttpMethod, RenewError>)
    ensures
        match method_of(s@) {
            Some(m) => r matches Ok(x) && x == m,
            None => r matches Err(RenewError::UnsupportedMethod),
        },
{
    if str_equal_ignore_ascii_case(s, "POST") {
        Ok(HttpMethod::Post)
    } else if str_equal_ignore_ascii_case(s, "PUT") {
        Ok(HttpMethod::Put)
    } else if str_equal_ignore_ascii_case(s, "PATCH") {
        Ok(HttpMethod::Patch)
    } else {
        Err(RenewError::UnsupportedMethod)
    }
}

/// What the result of rendering a template with the two variables `name`
/// and `ip` is; nothing when the template cannot be rendered with exactly
/// those variables.
pub uninterp spec fn rendered_template(
    template: Seq<char>,
    name: Seq<char>,
    ip: Seq<char>,
) -> Option<Seq<char>>;

/// Relies on strfmt::strfmt with the two variables `name` and `ip`: the
/// result is a pure function of the template and the two values, and the
/// call fails exactly when the template cannot be rendered from them.
#[verifier::external_body]
fn render_name_ip(template: &str, name: &str, ip: &str) -> (r: Result<String, RenewError>)
    ensures
        r matches Ok(s) ==> rendered_template(template@, name@, ip@) == Some(s@),
        r is Err ==> rendered_template(template@, name@, ip@) is None && r matches Err(
            RenewError::TemplateFailed,
        ),
{
    let mut vars: std::collections::HashMap<String, &str> = std::collections::HashMap::new();
    vars.insert("name".to_string(), name);
    vars.insert("ip".to_string(), ip);
    match strfmt::strfmt(template, &vars) {
        Ok(s) => Ok(s),
        Err(_) => Err(RenewError::TemplateFailed),
    }
}

/// One HTTP request the unverified shell must perform for an update:
/// everything but the credential, which the updater itself holds.
pub struct HttpRequestPlan {
    pub method: HttpMethod,
    pub url: String,
    pub content_type: Option<String>,
    pub body: Option<String>,
}

/// The URL-template update provider: renders the URL and issues a GET.
pub struct HttpGetUpdateProvider {
    pub credential: Option<UpdateCredential>,
    pub url_template: String,
}

/// The body-template update provider: a fixed URL, a rendered body.
pub struct HttpPlainBodyUpdateProvider {
    pub credential: Option<UpdateCredential>,
    pub url: String,
    pub method: HttpMethod,
    pub content_type: String,
    pub body_template: String,
}

impl HttpGetUpdateProvider {
    /// The one request this update makes: the URL template rendered with
    /// the name and the address text, fetched with GET.
    pub fn prepare(&self, name: &str, ip: &IpAddress) -> (r: Result<HttpRequestPlan, RenewError>)
        ensures
            match rendered_template(self.url_template@, name@, ip_text(*ip)) {
                Some(url) => r matches Ok(p) && p.method == HttpMethod::Get && p.url@ == url
                    && p.content_type is None && p.body is None,
                None => r matches Err(RenewError::TemplateFailed),
            },
    {
        let ip_s = ip_to_string(ip);
        match render_name_ip(self.url_template.as_str(), name, ip_s.as_str()) {
            Ok(url) => Ok(
                HttpRequestPlan { method: HttpMethod::Get, url, content_type: None, body: None },
            ),
            Err(e) => Err(e),
        }
    }
}

impl HttpPlainBodyUpdateProvider {
    /// The one request this update makes: the body template rendered with
    /// the name and the address text, sent to the fixed URL with the
    /// configured method and content type.
    pub fn prepare(&self, name: &str, ip: &IpAddress) -> (r: Result<HttpRequestPlan, RenewError>)
        ensures
            match rendered_template(self.body_template@, name@, ip_text(*ip)) {
                Some(body) => r matches Ok(p) && p.method == self.method && p.url@ == self.url@
                    && (p.content_type matches Some(ct) && ct@ == self.content_type@) && (
                p.body matches Some(b) && b@ == body),
                None => r matches Err(RenewError::TemplateFailed),
            },
    {
        let ip_s = ip_to_string(ip);
        match render_name_ip(self.body_template.as_str(), name, ip_s.as_str()) {
            Ok(body) => Ok(
                HttpRequestPlan {
                    method: self.method,
                    url: self.url.clone(),
                    content_type: Some(self.content_type.clone()),
                    body: Some(body),
                },
            ),
            Err(e) => Err(e),
        }
    }
}

/// Whether an HTTP status reports success: the 2xx range and nothing
/// else.
pub open spec fn status_ok(status: u16) -> bool {
    200 <= status < 300
}

/// What a templated update's response means: any 2xx reports a change
/// (these providers have no pre-check), anything else is a failure.
pub fn interpret_update_status(status: u16) -> (r: Result<bool, RenewError>)
    ensures
        status_ok(status) ==> r matches Ok(true),
        !status_ok(status) ==> (r matches Err(RenewError::HttpStatus { status: s }) && s == status),
{
    if 200 <= status && status < 300 {
        Ok(true)
    } else {
        Err(RenewError::HttpStatus { status })
    }
}

} // verus!

verus! {

/// One DNS record as the Cloudflare API shows it, as plain values. The
/// unverified shell decodes the API's JSON into this and encodes it back.
pub struct CfRecord {
    pub comment: Option<String>,
    pub name: String,
    pub proxied: bool,
    pub ttl: u32,
    pub content: String,
    pub record_type: String,
    pub id: Option<String>,
}

/// The Cloudflare update provider: a read-modify-write cycle over the
/// zone's DNS records.
pub struct CloudflareUpdateProvider {
    pub token: String,
    pub zone_id: String,
    pub proxied: bool,
    pub ttl: Option<u32>,
    pub comment: Option<String>,
}

/// Two optional texts hold the same characters.
pub open spec fn opt_text_eq(a: Option<String>, b: Option<String>) -> bool {
    match (a, b) {
        (Option::None, Option::None) => true,
        (Option::Some(x), Option::Some(y)) => x@ == y@,
        _ => false,
    }
}

fn opt_text_eq_exec(a: &Option<String>, b: &Option<String>) -> (r: bool)
    ensures
        r == opt_text_eq(*a, *b),
{
    match (a, b) {
        (Option::None, Option::None) => true,
        (Option::Some(x), Option::Some(y)) => str_equal(x.as_str(), y.as_str()),
        _ => false,
    }
}

/// The record type of an address family, as the API writes it.
pub open spec fn spec_record_type(is_v6: bool) -> Seq<char> {
    if is_v6 {
        "AAAA"@
    } else {
        "A"@
    }
}

/// Whether an existing record differs from what this updater would
/// write: by content, by the proxied flag, by the comment — or by a
/// configured ttl, except that while the record is proxied the upstream
/// ignores ttl, so a ttl difference alone forces nothing.
pub open spec fn cf_needs_update(u: CloudflareUpdateProvider, prior: CfRecord, ip: IpAddress) -> bool {
    prior.content@ != ip_text(ip) || prior.proxied != u.proxied || (match u.ttl {
        Some(t) => !u.proxied && t != prior.ttl,
        None => false,
    }) || !opt_text_eq(u.comment, prior.comment)
}

/// The ttl a rewritten record carries: the configured one, except that a
/// proxied record keeps what it had.
pub open spec fn rewrite_ttl(u: CloudflareUpdateProvider, prior: CfRecord) -> u32 {
    match u.ttl {
        Some(t) => if u.proxied {
            prior.ttl
        } else {
            t
        },
        None => prior.ttl,
    }
}

/// The record a rewrite carries, field by field.
pub open spec fn record_matches_rewrite(
    rec: CfRecord,
    u: CloudflareUpdateProvider,
    prior: CfRecord,
    ip: IpAddress,
) -> bool {
    &&& opt_text_eq(rec.comment, u.comment)
    &&& rec.name == prior.name
    &&& rec.proxied == u.proxied
    &&& rec.ttl == rewrite_ttl(u, prior)
    &&& rec.content@ == ip_text(ip)
    &&& rec.record_type == prior.record_type
    &&& rec.id is None
}

/// The record a creation carries, field by field. A fresh record gets the
/// configured ttl or 300 by default, and the record type of the address's
/// own family.
pub open spec fn record_matches_create(
    rec: CfRecord,
    u: CloudflareUpdateProvider,
    name: Seq<char>,
    ip: IpAddress,
) -> bool {
    &&& opt_text_eq(rec.comment, u.comment)
    &&& rec.name@ == name
    &&& rec.proxied == u.proxied
    &&& rec.ttl == (match u.ttl {
        Some(t) => t,
        None => 300u32,
    })
    &&& rec.content@ == ip_text(ip)
    &&& rec.record_type@ == spec_record_type(ip is V6)
    &&& rec.id is None
}

/// What the read half of the cycle decided: create a record, rewrite the
/// one found under its id, or leave everything untouched.
pub enum CfDecision {
    CreateNew { record: CfRecord },
    Rewrite { id: String, record: CfRecord },
    NoChange,
}

impl CloudflareUpdateProvider {
    /// The record type queried and written for an address family.
    pub fn record_type(is_v6: bool) -> (r: &'static str)
        ensures
            r@ == spec_record_type(is_v6),
    {
        if is_v6 {
            "AAAA"
        } else {
            "A"
        }
    }

    /// The URL of the zone's record collection, for listing and creating.
    pub fn records_url(&self) -> (s: String)
        ensures
            s@ == cf_records_url(self.zone_id@),
    {
        let mut s = "https://api.cloudflare.com/client/v4/zones/".to_owned();
        s.append(self.zone_id.as_str());
        s.append("/dns_records");
        assert(s@ =~= cf_records_url(self.zone_id@));
        s
    }

    /// The URL of one record, for rewriting it.
    pub fn record_url(&self, id: &str) -> (s: String)
        ensures
            s@ == cf_record_url(self.zone_id@, id@),
    {
        let mut s = self.records_url();
        s.append("/");
        s.append(id);
        assert(s@ =~= cf_record_url(self.zone_id@, id@));
        s
    }

    /// Whether an existing record must be rewritten.
    pub fn needs_update(&self, prior: &CfRecord, ip: &IpAddress) -> (r: bool)
        ensures
            r == cf_needs_update(*self, *prior, *ip),
    {
        let ip_s = ip_to_string(ip);
        let content_differs = !str_equal(prior.content.as_str(), ip_s.as_str());
        let ttl_differs = match self.ttl {
            Some(t) => !self.proxied && t != prior.ttl,
            None => false,
        };
        content_differs || prior.proxied != self.proxied || ttl_differs || !opt_text_eq_exec(
            &self.comment,
            &prior.comment,
        )
    }

    /// The record a creation sends.
    pub fn create_record(&self, name: &str, ip: &IpAddress) -> (rec: CfRecord)
        ensures
            record_matches_create(rec, *self, name@, *ip),
    {
        CfRecord {
            comment: clone_opt_string(&self.comment),
            name: name.to_owned(),
            proxied: self.proxied,
            ttl: match self.ttl {
                Some(t) => t,
                None => 300,
            },
            content: ip_to_string(ip),
            record_type: Self::record_type(ip.is_v6()).to_owned(),
            id: None,
        }
    }

    /// The record a rewrite sends, and the id it goes to. An existing
    /// record without an id cannot be rewritten.
    pub fn rewrite_record(&self, prior: CfRecord, ip: &IpAddress) -> (r: Result<
        (String, CfRecord),
        RenewError,
    >)
        ensures
            prior.id is None ==> (r matches Err(RenewError::RecordMissingId)),
            prior.id matches Some(id) ==> (r matches Ok((rid, rec)) && rid == id
                && record_matches_rewrite(rec, *self, prior, *ip)),
    {
        let CfRecord { comment: _, name, proxied: _, ttl, content: _, record_type, id } = prior;
        let rid = match id {
            Some(i) => i,
            None => {
                return Err(RenewError::RecordMissingId);
            },
        };
        let new_ttl = match self.ttl {
            Some(t) => if self.proxied {
                ttl
            } else {
                t
            },
            None => ttl,
        };
        Ok(
            (
                rid,
                CfRecord {
                    comment: clone_opt_string(&self.comment),
                    name,
                    proxied: self.proxied,
                    ttl: new_ttl,
                    content: ip_to_string(ip),
                    record_type,
                    id: None,
                },
            ),
        )
    }

    /// Decides the write half of the cycle from what the list call
    /// returned: no record means create one; a record that differs means
    /// rewrite it under its id; an identical record means no write at
    /// all.
    pub fn decide(&self, name: &str, existing: Option<CfRecord>, ip: &IpAddress) -> (r: Result<
        CfDecision,
        RenewError,
    >)
        ensures
            existing is None ==> (r matches Ok(CfDecision::CreateNew { record })
                && record_matches_create(record, *self, name@, *ip)),
            existing matches Some(prior) ==> (if !cf_needs_update(*self, prior, *ip) {
                r matches Ok(CfDecision::NoChange)
            } else if prior.id is None {
                r matches Err(RenewError::RecordMissingId)
            } else {
                r matches Ok(CfDecision::Rewrite { id, record }) && Some(id) == prior.id
                    && record_matches_rewrite(record, *self, prior, *ip)
            }),
    {
        match existing {
            None => Ok(CfDecision::CreateNew { record: self.create_record(name, ip) }),
            Some(prior) => {
                if self.needs_update(&prior, ip) {
                    match self.rewrite_record(prior, ip) {
                        Ok((id, record)) => Ok(CfDecision::Rewrite { id, record }),
                        Err(e) => Err(e),
                    }
                } else {
                    Ok(CfDecision::NoChange)
                }
            },
        }
    }
}

/// The URL of a zone's DNS record collection.
pub open spec fn cf_records_url(zone_id: Seq<char>) -> Seq<char> {
    "https://api.cloudflare.com/client/v4/zones/"@ + zone_id + "/dns_records"@
}

/// The URL of one DNS record of a zone.
pub open spec fn cf_record_url(zone_id: Seq<char>, id: Seq<char>) -> Seq<char> {
    cf_records_url(zone_id) + "/"@ + id
}

/// What a response envelope means: a status outside 2xx is a hard
/// failure; a 2xx body whose success flag is false is one too, carrying
/// the upstream error list; everything else passes.
pub fn check_envelope(status: u16, success: bool, upstream: Vec<CfApiError>) -> (r: Result<
    (),
    RenewError,
>)
    ensures
        !status_ok(status) ==> (r matches Err(RenewError::HttpStatus { status: s }) && s
            == status),
        status_ok(status) && !success ==> (r matches Err(RenewError::ApiRejected { errors }) && errors
            == upstream),
        status_ok(status) && success ==> (r matches Ok(())),
{
    if !(200 <= status && status < 300) {
        Err(RenewError::HttpStatus { status })
    } else if !success {
        Err(RenewError::ApiRejected { errors: upstream })
    } else {
        Ok(())
    }
}

/// With a proxied record, a differing ttl alone never forces a write:
/// identical content, proxied flag and comment mean no update, whatever
/// the two ttls are.
pub proof fn law_proxied_ttl_exempt(u: CloudflareUpdateProvider, prior: CfRecord, ip: IpAddress)
    requires
        u.proxied,
        prior.proxied == u.proxied,
        prior.content@ == ip_text(ip),
        opt_text_eq(u.comment, prior.comment),
    ensures
        !cf_needs_update(u, prior, ip),
{
}

/// One update provider, resolved to plain values: the credential looked
/// up, the method parsed, the defaults applied.
pub enum UpdateProviderInit {
    HttpGet(HttpGetUpdateProvider),
    HttpPlainBody(HttpPlainBodyUpdateProvider),
    Cloudflare(CloudflareUpdateProvider),
}

/// Builds the update provider of a family from its configuration,
/// resolving credential references against the table and validating the
/// method; every configuration error surfaces here, before any call.
pub fn init_update_provider(update_provider_type: &UpdateProviderType, config: &Config) -> (r:
    Result<UpdateProviderInit, RenewError>)
    ensures
        update_provider_type matches UpdateProviderType::HttpGet { credential, url_template }
            ==> (match optional_credential(config.update_credentials@, *credential) {
            Some(oc) => r matches Ok(UpdateProviderInit::HttpGet(u)) && u.credential == oc
                && u.url_template@ == url_template@,
            None => r matches Err(RenewError::CredentialNotFound),
        }),
        update_provider_type matches UpdateProviderType::HttpPlainBody {
            credential,
            url,
            method,
            content_type,
            body_template,
        } ==> (match method_of(method@) {
            None => r matches Err(RenewError::UnsupportedMethod),
            Some(m) => match optional_credential(config.update_credentials@, *credential) {
                Some(oc) => r matches Ok(UpdateProviderInit::HttpPlainBody(u)) && u.credential
                    == oc && u.url@ == url@ && u.method == m && u.content_type@ == content_type@
                    && u.body_template@ == body_template@,
                None => r matches Err(RenewError::CredentialNotFound),
            },
        }),
        update_provider_type matches UpdateProviderType::Cloudflare {
            credential,
            zone_id,
            proxied,
            ttl,
            comment,
        } ==> (match find_credential(config.update_credentials@, credential@) {
            None => r matches Err(RenewError::CredentialNotFound),
            Some(UpdateCredential::HttpBasicAuth(_)) => r matches Err(
                RenewError::CredentialKindUnsupported,
            ),
            Some(UpdateCredential::HttpBearerToken { token }) => r matches Ok(
                UpdateProviderInit::Cloudflare(u),
            ) && u.token == token && u.zone_id@ == zone_id@ && u.proxied == (match *proxied {
                Some(p) => p,
                None => false,
            }) && u.ttl == *ttl && opt_text_eq(u.comment, *comment),
        }),
{
    match update_provider_type {
        UpdateProviderType::HttpGet { credential, url_template } => {
            let c = match find_optional_update_credential(config, credential) {
                Ok(c) => c,
                Err(e) => {
                    return Err(e);
                },
            };
            Ok(
                UpdateProviderInit::HttpGet(
                    HttpGetUpdateProvider {
                        credential: clone_opt_credential(&c),
                        url_template: url_template.clone(),
                    },
                ),
            )
        },
        UpdateProviderType::HttpPlainBody { credential, url, method, content_type, body_template } => {
            let m = match parse_body_method(method.as_str()) {
                Ok(m) => m,
                Err(e) => {
                    return Err(e);
                },
            };
            let c = match find_optional_update_credential(config, credential) {
                Ok(c) => c,
                Err(e) => {
                    return Err(e);
                },
            };
            Ok(
                UpdateProviderInit::HttpPlainBody(
                    HttpPlainBodyUpdateProvider {
                        credential: clone_opt_credential(&c),
                        url: url.clone(),
                        method: m,
                        content_type: content_type.clone(),
                        body_template: body_template.clone(),
                    },
                ),
            )
        },
        UpdateProviderType::Cloudflare { credential, zone_id, proxied, ttl, comment } => {
            let token = match find_update_credential(config, credential.as_str()) {
                Ok(UpdateCredential::HttpBearerToken { token }) => token.clone(),
                Ok(UpdateCredential::HttpBasicAuth(_)) => {
                    return Err(RenewError::CredentialKindUnsupported);
                },
                Err(e) => {
                    return Err(e);
                },
            };
            Ok(
                UpdateProviderInit::Cloudflare(
                    CloudflareUpdateProvider {
                        token,
                        zone_id: zone_id.clone(),
                        proxied: match proxied {
                            Some(p) => *p,
                            None => false,
                        },
                        ttl: *ttl,
                        comment: clone_opt_string(comment),
                    },
                ),
            )
        },
    }
}

} // verus!
