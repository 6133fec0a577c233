use vstd::prelude::*;
use crate::address::{ip_from_text, quote_trimmed, trimmed, IpAddress};
use crate::config::{Config, IpProviderType};
use crate::dns::{AnswerModel, DnsAnswerData, DnsClient};
use crate::errors::RenewError;
use crate::query::DEFAULT_TIMEOUT_MS;

verus! {

/// One address provider, resolved to plain values with its defaults
/// applied: a configured literal, a plain-text HTTP reflector, or a
/// DNS-TXT reflector queried over plain UDP.
pub enum IpProviderInit {
    Static { ip: IpAddress },
    IfconfigIo { url: String, timeout_ms: u64 },
    SslipIo { client: DnsClient, name: String },
}

/// Builds the address provider of a family from its configuration. The
/// TXT reflector is always queried over UDP without TLS.
pub fn init_ip_provider(ip_provider_type: &IpProviderType, config: &Config) -> (r: Result<
    IpProviderInit,
    RenewError,
>)
    ensures
        ip_provider_type matches IpProviderType::Static { ip } ==> (r matches Ok(
            IpProviderInit::Static { ip: x },
        ) && x == ip),
        ip_provider_type matches IpProviderType::IfconfigIo { url, timeout_ms } ==> (r matches Ok(
            IpProviderInit::IfconfigIo { url: u, timeout_ms: t },
        ) && u@ == url@ && t == (match *timeout_ms {
            Some(t0) => t0,
            None => DEFAULT_TIMEOUT_MS,
        })),
        ip_provider_type matches IpProviderType::SslipIo {
            name_server_host,
            name_server_port,
            name,
            timeout_ms,
        } ==> (r matches Ok(IpProviderInit::SslipIo { client, name: n }) && n@ == name@
            && client.host@ == name_server_host@ && client.port == name_server_port
            && client.timeout_ms == (match *timeout_ms {
            Some(t0) => t0,
            None => DEFAULT_TIMEOUT_MS,
        }) && client.is_udp == true && client.is_tls == false),
{
    let _ = config;
    match ip_provider_type {
        IpProviderType::Static { ip } => Ok(IpProviderInit::Static { ip: *ip }),
        IpProviderType::IfconfigIo { url, timeout_ms } => Ok(
            IpProviderInit::IfconfigIo {
                url: url.clone(),
                timeout_ms: match timeout_ms {
                    Some(t) => *t,
                    None => DEFAULT_TIMEOUT_MS,
                },
            },
        ),
        IpProviderType::SslipIo { name_server_host, name_server_port, name, timeout_ms } => {
            match DnsClient::new(
                name_server_host.clone(),
                *name_server_port,
                match timeout_ms {
                    Some(t) => *t,
                    None => DEFAULT_TIMEOUT_MS,
                },
                true,
                false,
            ) {
                Ok(client) => Ok(IpProviderInit::SslipIo { client, name: name.clone() }),
                Err(_) => vstd::pervasive::unreached(),
            }
        },
    }
}

/// What the static provider answers: its literal, as long as the literal
/// belongs to the requested family.
pub fn static_address(ip: &IpAddress, v6_wanted: bool) -> (r: Result<IpAddress, RenewError>)
    ensures
        ip.spec_matches_family(v6_wanted) ==> (r matches Ok(x) && x == *ip),
        !ip.spec_matches_family(v6_wanted) ==> (r matches Err(RenewError::AddressFamilyMismatch)),
{
    if ip.matches_family(v6_wanted) {
        Ok(*ip)
    } else {
        Err(RenewError::AddressFamilyMismatch)
    }
}

/// What an HTTP reflector's body means: the body, trimmed of surrounding
/// whitespace, must spell one address of the requested family.
pub fn interpret_reflector_body(body: &str, v6_wanted: bool) -> (r: Result<IpAddress, RenewError>)
    ensures
        match ip_from_text(trimmed(body@)) {
            None => r matches Err(RenewError::InvalidAddressLiteral),
            Some(ip) => if ip.spec_matches_family(v6_wanted) {
                r matches Ok(x) && x == ip
            } else {
                r matches Err(RenewError::AddressFamilyMismatch)
            },
        },
{
    let t = crate::address::trim_ascii_ws(body);
    match crate::address::parse_ip_literal(t) {
        None => Err(RenewError::InvalidAddressLiteral),
        Some(ip) => if ip.matches_family(v6_wanted) {
            Ok(ip)
        } else {
            Err(RenewError::AddressFamilyMismatch)
        },
    }
}

/// Whether every byte is seven-bit.
pub open spec fn all_ascii(bytes: Seq<u8>) -> bool {
    forall|i: int| 0 <= i < bytes.len() ==> bytes[i] < 128
}

/// Seven-bit bytes read as characters.
pub open spec fn ascii_chars(bytes: Seq<u8>) -> Seq<char> {
    bytes.map_values(|b: u8| b as char)
}

/// The segments of one TXT record, concatenated from `i` on.
pub open spec fn concat_segments_from(segs: Seq<Seq<u8>>, i: int) -> Seq<u8>
    decreases segs.len() - i when 0 <= i <= segs.len()
{
    if i >= segs.len() {
        Seq::empty()
    } else {
        segs[i] + concat_segments_from(segs, i + 1)
    }
}

/// What one TXT record contributes: its segments concatenated must be
/// ASCII text that — after shedding surrounding quote characters —
/// spells an address; anything else contributes nothing.
pub open spec fn txt_record_ip(segs: Seq<Seq<u8>>) -> Option<IpAddress> {
    let bytes = concat_segments_from(segs, 0);
    if all_ascii(bytes) {
        ip_from_text(quote_trimmed(ascii_chars(bytes)))
    } else {
        None
    }
}

/// The first usable address among the TXT records from `i` on: records
/// that are malformed or spell no address are skipped, not fatal.
pub open spec fn first_txt_ip_from(answers: Seq<AnswerModel>, i: int) -> Option<IpAddress>
    decreases answers.len() - i when 0 <= i <= answers.len()
{
    if i >= answers.len() {
        None
    } else {
        match answers[i] {
            AnswerModel::Txt(segs) => match txt_record_ip(segs) {
                Some(ip) => Some(ip),
                None => first_txt_ip_from(answers, i + 1),
            },
            _ => first_txt_ip_from(answers, i + 1),
        }
    }
}

fn concat_segments(segs: &Vec<Vec<u8>>) -> (r: Vec<u8>)
    ensures
        r@ == concat_segments_from(segs.deep_view(), 0),
{
    concat_segments_exec(segs, 0)
}

fn concat_segments_exec(segs: &Vec<Vec<u8>>, i: usize) -> (r: Vec<u8>)
    requires
        i <= segs@.len(),
    ensures
        r@ == concat_segments_from(segs.deep_view(), i as int),
    decreases segs@.len() - i,
{
    proof {
        assert(segs.deep_view().len() == segs@.len());
    }
    if i >= segs.len() {
        Vec::new()
    } else {
        proof {
            assert(segs.deep_view()[i as int] == segs@[i as int]@);
        }
        let mut rest = concat_segments_exec(segs, i + 1);
        let ghost rest0 = rest@;
        let mut out: Vec<u8> = Vec::new();
        let mut k: usize = 0;
        while k < segs[i].len()
            invariant
                i < segs@.len(),
                k <= segs@[i as int]@.len(),
                out@ =~= segs@[i as int]@.subrange(0, k as int),
            decreases segs@[i as int]@.len() - k,
        {
            out.push(segs[i][k]);
            k = k + 1;
        }
        let mut j: usize = 0;
        while j < rest.len()
            invariant
                j <= rest0.len(),
                rest@ == rest0,
                out@ =~= segs@[i as int]@ + rest0.subrange(0, j as int),
            decreases rest0.len() - j,
        {
            out.push(rest[j]);
            j = j + 1;
        }
        assert(out@ =~= segs@[i as int]@ + rest0);
        out
    }
}

fn ascii_string(bytes: &Vec<u8>) -> (r: Option<String>)
    ensures
        all_ascii(bytes@) ==> (r matches Some(s) && s@ == ascii_chars(bytes@)),
        !all_ascii(bytes@) ==> r is None,
{
    let mut s = String::new();
    let mut i: usize = 0;
    while i < bytes.len()
        invariant
            i <= bytes@.len(),
            forall|k: int| 0 <= k < i ==> bytes@[k] < 128,
            s@ =~= ascii_chars(bytes@.subrange(0, i as int)),
        decreases bytes@.len() - i,
    {
        let b = bytes[i];
        if b >= 128 {
            return None;
        }
        crate::address::push_ascii_char(&mut s, b);
        proof {
            assert(ascii_chars(bytes@.subrange(0, i + 1 as int)) =~= ascii_chars(
                bytes@.subrange(0, i as int),
            ).push(b as char));
        }
        i = i + 1;
    }
    proof {
        assert(bytes@.subrange(0, bytes@.len() as int) =~= bytes@);
    }
    Some(s)
}

/// The current public address per the DNS-TXT reflector: the first TXT
/// answer whose text spells an address; none at all is a failure.
pub fn sslip_first_ip(answers: &Vec<DnsAnswerData>) -> (r: Result<IpAddress, RenewError>)
    ensures
        match first_txt_ip_from(answers.deep_view(), 0) {
            Some(ip) => r matches Ok(x) && x == ip,
            None => r matches Err(RenewError::NoAddressInAnswers),
        },
{
    sslip_scan(answers, 0)
}

fn sslip_scan(answers: &Vec<DnsAnswerData>, i: usize) -> (r: Result<IpAddress, RenewError>)
    requires
        i <= answers@.len(),
    ensures
        match first_txt_ip_from(answers.deep_view(), i as int) {
            Some(ip) => r matches Ok(x) && x == ip,
            None => r matches Err(RenewError::NoAddressInAnswers),
        },
    decreases answers@.len() - i,
{
    proof {
        assert(answers.deep_view().len() == answers@.len());
    }
    if i >= answers.len() {
        Err(RenewError::NoAddressInAnswers)
    } else {
        proof {
            assert(answers.deep_view()[i as int] == answers@[i as int].deep_view());
        }
        match &answers[i] {
            DnsAnswerData::Txt(segs) => {
                let bytes = concat_segments(segs);
                match ascii_string(&bytes) {
                    Some(s) => {
                        let t = crate::address::trim_quotes(s.as_str());
                        match crate::address::parse_ip_literal(t) {
                            Some(ip) => Ok(ip),
                            None => sslip_scan(answers, i + 1),
                        }
                    },
                    None => sslip_scan(answers, i + 1),
                }
            },
            _ => sslip_scan(answers, i + 1),
        }
    }
}

} // verus!
