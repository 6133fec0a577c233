use vstd::prelude::*;
use crate::address::IpAddress;
use crate::errors::RenewError;
use hickory_proto::op::{Message, MessageType, Query};
use hickory_proto::rr::{DNSClass, Name, RData, RecordType};
use hickory_proto::serialize::binary::{BinDecodable, BinEncodable};
use core::str::FromStr;

verus! {

/// One resolved candidate of a name server: an address and a port.
#[derive(Clone, Copy, Debug, PartialEq, Eq, Structural)]
pub struct SocketAddress {
    pub ip: IpAddress,
    pub port: u16,
}

/// The record types this client ever asks for.
#[derive(Clone, Copy, Debug, PartialEq, Eq, Structural)]
pub enum RecordKind {
    A,
    Aaaa,
    Txt,
}

/// The address record type of an address family.
pub fn record_kind_for_family(is_v6: bool) -> (r: RecordKind)
    ensures
        r == (if is_v6 {
            RecordKind::Aaaa
        } else {
            RecordKind::A
        }),
{
    if is_v6 {
        RecordKind::Aaaa
    } else {
        RecordKind::A
    }
}

/// A DNS client over exactly one transport: UDP, TCP, or TLS over TCP.
pub struct DnsClient {
    pub host: String,
    pub port: Option<u16>,
    pub timeout_ms: u64,
    pub is_udp: bool,
    pub is_tls: bool,
}

impl DnsClient {
    /// Builds a client. UDP and TLS together name no transport: that
    /// combination is refused at construction, before any call.
    pub fn new(host: String, port: Option<u16>, timeout_ms: u64, is_udp: bool, is_tls: bool) -> (r:
        Result<Self, RenewError>)
        ensures
            is_udp && is_tls ==> (r matches Err(RenewError::InvalidTransportCombination)),
            !(is_udp && is_tls) ==> (r matches Ok(c) && c.host == host && c.port == port
                && c.timeout_ms == timeout_ms && c.is_udp == is_udp && c.is_tls == is_tls),
    {
        if is_udp && is_tls {
            return Err(RenewError::InvalidTransportCombination);
        }
        Ok(DnsClient { host, port, timeout_ms, is_udp, is_tls })
    }

    /// The port queried: the configured one, else 853 for TLS and 53
    /// otherwise.
    pub open spec fn spec_effective_port(&self) -> u16 {
        match self.port {
            Some(p) => p,
            None => if self.is_tls {
                853
            } else {
                53
            },
        }
    }

    pub fn effective_port(&self) -> (p: u16)
        ensures
            p == self.spec_effective_port(),
    {
        match self.port {
            Some(p) => p,
            None => if self.is_tls {
                853
            } else {
                53
            },
        }
    }
}

/// Whether a candidate survives the family filter: no filter keeps
/// everything, a filter keeps its own family only.
pub open spec fn family_matches(a: SocketAddress, family: Option<bool>) -> bool {
    match family {
        None => true,
        Some(v6) => a.ip.spec_matches_family(v6),
    }
}

/// The candidates from `i` on that survive the family filter, in order.
pub open spec fn filtered_from(s: Seq<SocketAddress>, i: int, family: Option<bool>) -> Seq<
    SocketAddress,
>
    decreases s.len() - i when 0 <= i <= s.len()
{
    if i >= s.len() {
        Seq::empty()
    } else if family_matches(s[i], family) {
        seq![s[i]] + filtered_from(s, i + 1, family)
    } else {
        filtered_from(s, i + 1, family)
    }
}

fn filter_from(s: &Vec<SocketAddress>, i: usize, family: Option<bool>) -> (r: Vec<SocketAddress>)
    requires
        i <= s@.len(),
    ensures
        r@ == filtered_from(s@, i as int, family),
    decreases s@.len() - i,
{
    if i >= s.len() {
        Vec::new()
    } else {
        let keep = match family {
            None => true,
            Some(v6) => s[i].ip.matches_family(v6),
        };
        let mut rest = filter_from(s, i + 1, family);
        if keep {
            rest.insert(0, s[i]);
            assert(rest@ =~= seq![s@[i as int]] + rest@.subrange(1, rest@.len() as int));
        }
        rest
    }
}

/// Keeps the candidates of the requested family, in resolution order.
pub fn filter_candidates(cands: &Vec<SocketAddress>, family: Option<bool>) -> (r: Vec<
    SocketAddress,
>)
    ensures
        r@ == filtered_from(cands@, 0, family),
{
    filter_from(cands, 0, family)
}

/// The unspecified address of a family.
pub open spec fn unspecified(v6: bool) -> IpAddress {
    if v6 {
        IpAddress::V6(0)
    } else {
        IpAddress::V4(0)
    }
}

/// The local address a query binds to: the explicit one where supplied,
/// else the unspecified address of the requested family, else none.
pub open spec fn spec_bind_address(explicit: Option<SocketAddress>, family: Option<bool>) -> Option<
    SocketAddress,
> {
    match explicit {
        Some(b) => Some(b),
        None => match family {
            Some(v6) => Some(SocketAddress { ip: unspecified(v6), port: 0 }),
            None => None,
        },
    }
}

pub fn choose_bind_address(explicit: Option<SocketAddress>, family: Option<bool>) -> (r: Option<
    SocketAddress,
>)
    ensures
        r == spec_bind_address(explicit, family),
{
    match explicit {
        Some(b) => Some(b),
        None => match family {
            Some(v6) => Some(
                SocketAddress {
                    ip: if v6 {
                        IpAddress::V6(0)
                    } else {
                        IpAddress::V4(0)
                    },
                    port: 0,
                },
            ),
            None => None,
        },
    }
}

/// What the fallback loop must do next.
#[derive(Clone, Copy, Debug, PartialEq, Eq, Structural)]
pub enum ResolveDirective {
    /// Attempt the candidate at this index of the filtered list.
    TryCandidate { index: usize },
    /// No candidate survived the filter: succeed with an empty answer
    /// set. Nothing was attempted, so nothing failed.
    EmptyAnswer,
    /// Every candidate was attempted and every attempt failed.
    Exhausted,
}

/// The candidate fallback of one query: candidates are attempted in
/// resolution order, the first success short-circuits, and only a list
/// whose every member failed counts as exhausted. An empty list is the
/// deliberate other outcome: success with an empty answer set, distinct
/// from a resolution failure.
pub struct Resolution {
    pub total: usize,
    pub attempted: usize,
}

impl Resolution {
    pub fn begin(total: usize) -> (r: Resolution)
        ensures
            r.total == total,
            r.attempted == 0,
    {
        Resolution { total, attempted: 0 }
    }

    pub open spec fn spec_directive(&self) -> ResolveDirective {
        if self.total == 0 {
            ResolveDirective::EmptyAnswer
        } else if self.attempted < self.total {
            ResolveDirective::TryCandidate { index: self.attempted }
        } else {
            ResolveDirective::Exhausted
        }
    }

    pub fn directive(&self) -> (d: ResolveDirective)
        ensures
            d == self.spec_directive(),
    {
        if self.total == 0 {
            ResolveDirective::EmptyAnswer
        } else if self.attempted < self.total {
            ResolveDirective::TryCandidate { index: self.attempted }
        } else {
            ResolveDirective::Exhausted
        }
    }

    /// One attempt failed; the loop moves on to the next candidate.
    pub fn record_failure(&mut self)
        requires
            old(self).attempted < old(self).total,
        ensures
            final(self).total == old(self).total,
            final(self).attempted == old(self).attempted + 1,
    {
        self.attempted = self.attempted + 1;
    }
}

/// After a failed attempt the loop directs the next candidate, and only
/// once every candidate has failed does it direct `Exhausted`: with a
/// second candidate left, the second is attempted, and its success is
/// what the query returns.
pub proof fn law_fallback_tries_next(r: Resolution)
    requires
        r.attempted < r.total,
    ensures
        r.spec_directive() == (ResolveDirective::TryCandidate { index: r.attempted }),
        (Resolution { total: r.total, attempted: (r.attempted + 1) as usize }).spec_directive()
            == if r.attempted + 1 < r.total {
            ResolveDirective::TryCandidate { index: (r.attempted + 1) as usize }
        } else {
            ResolveDirective::Exhausted
        },
{
}

/// A family filter that matches no candidate leaves an empty list, and
/// the query then succeeds with an empty answer set instead of failing.
pub proof fn law_empty_filter_empty_answer(s: Seq<SocketAddress>, family: Option<bool>)
    requires
        forall|i: int| 0 <= i < s.len() ==> !family_matches(s[i], family),
    ensures
        filtered_from(s, 0, family).len() == 0,
        (Resolution { total: 0, attempted: 0 }).spec_directive() == ResolveDirective::EmptyAnswer,
{
    law_empty_filter_from(s, 0, family);
}

proof fn law_empty_filter_from(s: Seq<SocketAddress>, i: int, family: Option<bool>)
    requires
        0 <= i <= s.len(),
        forall|k: int| 0 <= k < s.len() ==> !family_matches(s[k], family),
    ensures
        filtered_from(s, i, family).len() == 0,
    decreases s.len() - i,
{
    if i < s.len() {
        law_empty_filter_from(s, i + 1, family);
    }
}

/// The data of one answer record, as plain values: an address record's
/// address, a TXT record's segments, or something the client ignores.
pub enum DnsAnswerData {
    V4(u32),
    V6(u128),
    Txt(Vec<Vec<u8>>),
    Other,
}

/// The mathematical shape of one answer record.
pub enum AnswerModel {
    V4(u32),
    V6(u128),
    Txt(Seq<Seq<u8>>),
    Other,
}

impl View for DnsAnswerData {
    type V = AnswerModel;

    open spec fn view(&self) -> AnswerModel {
        match self {
            DnsAnswerData::V4(v) => AnswerModel::V4(*v),
            DnsAnswerData::V6(v) => AnswerModel::V6(*v),
            DnsAnswerData::Txt(segs) => AnswerModel::Txt(segs.deep_view()),
            DnsAnswerData::Other => AnswerModel::Other,
        }
    }
}

impl DeepView for DnsAnswerData {
    type V = AnswerModel;

    open spec fn deep_view(&self) -> AnswerModel {
        self.view()
    }
}

/// The addresses of the A and AAAA records from `i` on, in order; every
/// other record type is ignored.
pub open spec fn extracted_from(answers: Seq<AnswerModel>, i: int) -> Seq<IpAddress>
    decreases answers.len() - i when 0 <= i <= answers.len()
{
    if i >= answers.len() {
        Seq::empty()
    } else {
        match answers[i] {
            AnswerModel::V4(v) => seq![IpAddress::V4(v)] + extracted_from(answers, i + 1),
            AnswerModel::V6(v) => seq![IpAddress::V6(v)] + extracted_from(answers, i + 1),
            _ => extracted_from(answers, i + 1),
        }
    }
}

fn extract_from(answers: &Vec<DnsAnswerData>, i: usize) -> (r: Vec<IpAddress>)
    requires
        i <= answers@.len(),
    ensures
        r@ == extracted_from(answers.deep_view(), i as int),
    decreases answers@.len() - i,
{
    proof {
        assert(answers.deep_view().len() == answers@.len());
    }
    if i >= answers.len() {
        Vec::new()
    } else {
        let mut rest = extract_from(answers, i + 1);
        proof {
            assert(answers.deep_view()[i as int] == answers@[i as int].deep_view());
        }
        match &answers[i] {
            DnsAnswerData::V4(v) => {
                rest.insert(0, IpAddress::V4(*v));
                assert(rest@ =~= seq![IpAddress::V4(answers@[i as int]->V4_0)] + rest@.subrange(
                    1,
                    rest@.len() as int,
                ));
            },
            DnsAnswerData::V6(v) => {
                rest.insert(0, IpAddress::V6(*v));
                assert(rest@ =~= seq![IpAddress::V6(answers@[i as int]->V6_0)] + rest@.subrange(
                    1,
                    rest@.len() as int,
                ));
            },
            _ => {},
        }
        rest
    }
}

/// The addresses the A and AAAA records of an answer set carry, in
/// answer order.
pub fn extract_addresses(answers: &Vec<DnsAnswerData>) -> (r: Vec<IpAddress>)
    ensures
        r@ == extracted_from(answers.deep_view(), 0),
{
    extract_from(answers, 0)
}

/// What encoding a standard query for this name comes to: one question,
/// class IN, recursion desired, and — for the sake of HTTP caches — the
/// transaction id fixed at zero; nothing when the name cannot be encoded.
pub uninterp spec fn dns_query_encoding(name: Seq<char>, is_v6: bool) -> Option<Seq<u8>>;

/// Relies on hickory_proto's Name::from_str, Query::query, the Message
/// builder and BinEncodable::to_vec: with every message field fixed
/// (id 0, one question of class IN and type A or AAAA per family,
/// recursion desired) the wire encoding is a pure function of the name
/// and the family, and encoding fails exactly when the name does not
/// parse or the message cannot be rendered.
#[verifier::external_body]
pub(crate) fn encode_dns_query(name: &str, is_v6: bool) -> (r: Result<Vec<u8>, RenewError>)
    ensures
        r matches Ok(b) ==> dns_query_encoding(name@, is_v6) == Some(b@),
        r is Err ==> dns_query_encoding(name@, is_v6) is None && r matches Err(
            RenewError::DnsEncodeFailed,
        ),
{
    let n = Name::from_str(name).map_err(|_| RenewError::DnsEncodeFailed)?;
    let mut q = Query::query(n, if is_v6 { RecordType::AAAA } else { RecordType::A });
    q.set_query_class(DNSClass::IN);
    let mut m = Message::new();
    m.set_id(0).set_message_type(MessageType::Query).set_recursion_desired(true).add_query(q);
    m.to_vec().map_err(|_| RenewError::DnsEncodeFailed)
}

/// What the answer section of a wire-format DNS message holds, record by
/// record; nothing when the bytes are no DNS message.
pub uninterp spec fn dns_answer_records(bytes: Seq<u8>) -> Option<Seq<AnswerModel>>;

/// Relies on hickory_proto's Message::from_vec and the record accessors
/// data(), A.0, AAAA.0 and TXT::txt_data: decoding is a pure function of
/// the bytes, each answer record maps to its variant with its payload
/// moved over, and decoding fails exactly when the bytes are no DNS
/// message.
#[verifier::external_body]
pub(crate) fn decode_dns_answers(bytes: &[u8]) -> (r: Result<Vec<DnsAnswerData>, RenewError>)
    ensures
        r matches Ok(v) ==> dns_answer_records(bytes@) == Some(v.deep_view()),
        r is Err ==> dns_answer_records(bytes@) is None && r matches Err(
            RenewError::DnsDecodeFailed,
        ),
{
    let m = Message::from_vec(bytes).map_err(|_| RenewError::DnsDecodeFailed)?;
    Ok(m.answers().iter().map(|rec| match rec.data() {
        Some(RData::A(a)) => DnsAnswerData::V4(u32::from(a.0)),
        Some(RData::AAAA(a)) => DnsAnswerData::V6(u128::from(a.0)),
        Some(RData::TXT(t)) => DnsAnswerData::Txt(t.txt_data().iter().map(|d| d.to_vec()).collect()),
        _ => DnsAnswerData::Other,
    }).collect())
}

} // verus!
