use vstd::prelude::*;

verus! {

/// One upstream error object carried inside a Cloudflare API response
/// envelope whose `success` flag is false.
#[derive(Debug, Clone)]
pub struct CfApiError {
    pub code: u32,
    pub message: String,
}

/// Everything that can go wrong while renewing one name.
///
/// Configuration errors (an invalid transport combination, an unsupported
/// HTTP method, an unresolved credential reference, a malformed literal)
/// are fatal to that name's cycle only. Transport and protocol errors make
/// the one provider call fail; the caller decides what that means for the
/// cycle. No error here is fatal to the process.
#[derive(Debug, Clone)]
pub enum RenewError {
    /// A DNS client was asked for UDP and TLS at the same time.
    InvalidTransportCombination,
    /// The configured HTTP method of a plain-body update is not one of
    /// POST, PUT or PATCH.
    UnsupportedMethod,
    /// A provider references a credential name that the credential table
    /// does not hold.
    CredentialNotFound,
    /// The referenced credential exists but its kind cannot be used by
    /// this provider (Cloudflare accepts only a bearer token).
    CredentialKindUnsupported,
    /// An address of the wrong family was produced for the requested one.
    AddressFamilyMismatch,
    /// A piece of text could not be parsed as an IP address literal.
    InvalidAddressLiteral,
    /// No answer record yielded a usable address.
    NoAddressInAnswers,
    /// A URL or body template could not be rendered.
    TemplateFailed,
    /// A URL could not be parsed or extended with a query parameter.
    UrlInvalid,
    /// A DNS query message could not be encoded to wire format.
    DnsEncodeFailed,
    /// A DNS response could not be decoded from wire format.
    DnsDecodeFailed,
    /// An HTTP call came back with a status outside the 2xx range.
    HttpStatus { status: u16 },
    /// A DNS-over-HTTPS JSON response carried a status other than
    /// NOERROR (0) or NXDOMAIN (3).
    DohStatus { status: i64 },
    /// A 2xx Cloudflare response whose envelope reports failure.
    ApiRejected { errors: Vec<CfApiError> },
    /// Every resolved candidate address of a name server was attempted
    /// and every attempt failed.
    ResolutionExhausted,
    /// The next renewal deadline does not fit in epoch seconds.
    ClockOverflow,
    /// An existing record that must be rewritten carries no id.
    RecordMissingId,
    /// A transport-level failure reported by the unverified shell.
    Transport { message: String },
}

} // verus!
