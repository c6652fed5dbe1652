use vstd::prelude::*;
use crate::error::RkikError;
use rkik_nts::Error as LibError;
use NtsLibErrorVariant as V;

verus! {

/// Machine-readable NTS validation error kinds.
#[derive(Debug, Clone, Copy, PartialEq, Eq, Structural)]
pub enum NtsErrorKind {
    /// NTS-KE handshake failed (TLS or protocol error)
    KeHandshakeFailed,
    /// TLS certificate validation failed
    CertificateInvalid,
    /// No cookies received from server
    MissingCookies,
    /// AEAD authentication failed on response
    AeadFailure,
    /// Missing authenticator extension in response
    MissingAuthenticator,
    /// Invalid or mismatched Unique Identifier
    InvalidUniqueId,
    /// Invalid origin timestamp (anti-replay)
    InvalidOriginTimestamp,
    /// Required NTS extensions missing or malformed
    MalformedExtensions,
    /// Server returned unauthenticated response after NTS-KE
    UnauthenticatedResponse,
    /// Connection timeout during NTS operations
    Timeout,
    /// Network-level error
    Network,
    /// Unknown or unclassified error
    Unknown,
}

/// The canonical snake_case name of each kind.
pub open spec fn kind_name(k: NtsErrorKind) -> Seq<char> {
    match k {
        NtsErrorKind::KeHandshakeFailed => "ke_handshake_failed"@,
        NtsErrorKind::CertificateInvalid => "certificate_invalid"@,
        NtsErrorKind::MissingCookies => "missing_cookies"@,
        NtsErrorKind::AeadFailure => "aead_failure"@,
        NtsErrorKind::MissingAuthenticator => "missing_authenticator"@,
        NtsErrorKind::InvalidUniqueId => "invalid_unique_id"@,
        NtsErrorKind::InvalidOriginTimestamp => "invalid_origin_timestamp"@,
        NtsErrorKind::MalformedExtensions => "malformed_extensions"@,
        NtsErrorKind::UnauthenticatedResponse => "unauthenticated_response"@,
        NtsErrorKind::Timeout => "timeout"@,
        NtsErrorKind::Network => "network"@,
        NtsErrorKind::Unknown => "unknown"@,
    }
}

/// Security-critical kinds: a response that may have been forged or replayed.
pub open spec fn is_security_critical(k: NtsErrorKind) -> bool {
    match k {
        NtsErrorKind::AeadFailure
        | NtsErrorKind::MissingAuthenticator
        | NtsErrorKind::UnauthenticatedResponse
        | NtsErrorKind::InvalidUniqueId
        | NtsErrorKind::InvalidOriginTimestamp => true,
        _ => false,
    }
}

impl NtsErrorKind {
    /// Returns the canonical string representation for JSON output
    pub fn as_str(&self) -> (s: &'static str)
        ensures
            s@ == kind_name(*self),
    {
        match self {
            NtsErrorKind::KeHandshakeFailed => "ke_handshake_failed",
            NtsErrorKind::CertificateInvalid => "certificate_invalid",
            NtsErrorKind::MissingCookies => "missing_cookies",
            NtsErrorKind::AeadFailure => "aead_failure",
            NtsErrorKind::MissingAuthenticator => "missing_authenticator",
            NtsErrorKind::InvalidUniqueId => "invalid_unique_id",
            NtsErrorKind::InvalidOriginTimestamp => "invalid_origin_timestamp",
            NtsErrorKind::MalformedExtensions => "malformed_extensions",
            NtsErrorKind::UnauthenticatedResponse => "unauthenticated_response",
            NtsErrorKind::Timeout => "timeout",
            NtsErrorKind::Network => "network",
            NtsErrorKind::Unknown => "unknown",
        }
    }

    /// Returns the plugin exit code for this error kind:
    /// 2 (CRITICAL) for security-critical failures, 3 (UNKNOWN) otherwise.
    pub fn plugin_exit_code(&self) -> (code: i32)
        ensures
            code == (if is_security_critical(*self) { 2i32 } else { 3i32 }),
            code == 2i32 <==> (*self == NtsErrorKind::AeadFailure || *self == NtsErrorKind::MissingAuthenticator
                || *self == NtsErrorKind::UnauthenticatedResponse || *self == NtsErrorKind::InvalidUniqueId
                || *self == NtsErrorKind::InvalidOriginTimestamp),
            code == 2i32 || code == 3i32,
    {
        match self {
            NtsErrorKind::AeadFailure
            | NtsErrorKind::MissingAuthenticator
            | NtsErrorKind::UnauthenticatedResponse
            | NtsErrorKind::InvalidUniqueId
            | NtsErrorKind::InvalidOriginTimestamp => 2,
            NtsErrorKind::KeHandshakeFailed
            | NtsErrorKind::CertificateInvalid
            | NtsErrorKind::MissingCookies
            | NtsErrorKind::MalformedExtensions => 3,
            NtsErrorKind::Timeout | NtsErrorKind::Network | NtsErrorKind::Unknown => 3,
        }
    }
}

impl NtsErrorKind {
    /// The kind's name as an owned string (what `Display` prints).
    pub fn to_string(&self) -> (s: String)
        ensures
            s@ == kind_name(*self),
    {
        String::from_str(self.as_str())
    }
}

/// Structured NTS error with machine-readable kind and human-readable message.
#[derive(Debug, Clone)]
pub struct NtsError {
    /// Machine-readable error classification
    pub kind: NtsErrorKind,
    /// Human-readable error message
    pub message: String,
}

impl NtsError {
    pub fn new(kind: NtsErrorKind, message: String) -> (e: Self)
        ensures
            e.kind == kind,
            e.message@ == message@,
    {
        NtsError { kind, message }
    }

    /// The message, as an owned string (what `Display` prints).
    pub fn to_string(&self) -> (s: String)
        ensures
            s@ == self.message@,
    {
        self.message.clone()
    }
}

/// NTS validation outcome for successful probes.
#[derive(Debug, Clone)]
pub struct NtsValidationOutcome {
    /// Whether the response was cryptographically authenticated
    pub authenticated: bool,
    /// If authentication failed, the error details
    pub error: Option<NtsError>,
}

impl NtsValidationOutcome {
    pub fn success() -> (o: Self)
        ensures
            o.authenticated,
            o.error is None,
    {
        NtsValidationOutcome { authenticated: true, error: None }
    }

    pub fn failure(error: NtsError) -> (o: Self)
        ensures
            !o.authenticated,
            o.error == Some(error),
    {
        NtsValidationOutcome { authenticated: false, error: Some(error) }
    }
}

/// TLS certificate information from the NTS-KE handshake.
#[derive(Debug, Clone)]
pub struct CertificateInfo {
    /// Subject of the certificate (CN, O, etc.)
    pub subject: String,
    /// Issuer of the certificate
    pub issuer: String,
    /// Certificate validity period start (RFC3339 format)
    pub valid_from: String,
    /// Certificate validity period end (RFC3339 format)
    pub valid_until: String,
    /// Serial number (hex format)
    pub serial_number: String,
    /// Subject Alternative Names (DNS names)
    pub san_dns_names: Vec<String>,
    /// Signature algorithm
    pub signature_algorithm: String,
    /// Public key algorithm
    pub public_key_algorithm: String,
    /// Certificate fingerprint (SHA-256, hex format)
    pub fingerprint_sha256: String,
    /// Whether the certificate is self-signed
    pub is_self_signed: bool,
}

/// Declares `rkik_nts::Error`, the NTS client library's error, as an
/// opaque type: verified code carries it and hands it to the wrappers below.
#[verifier::external_type_specification]
#[verifier::external_body]
pub struct ExLibError(rkik_nts::Error);

/// The variants of the NTS client library's error, without their payloads.
#[derive(Debug, Clone, Copy, PartialEq, Eq, Structural)]
pub enum NtsLibErrorVariant {
    Io,
    Tls,
    KeyExchange,
    Protocol,
    InvalidResponse,
    KissOfDeath,
    Timeout,
    InvalidConfig,
    ServerUnavailable,
    AuthenticationFailed,
    MissingNtsCookie,
    MissingAuthenticator,
    AeadVerificationFailed,
    MalformedNtsExtension,
    NoCookiesReturned,
    Other,
}

/// The classification of each library error variant.
pub open spec fn kind_of_variant(v: NtsLibErrorVariant) -> NtsErrorKind {
    match v {
        NtsLibErrorVariant::AeadVerificationFailed => NtsErrorKind::AeadFailure,
        NtsLibErrorVariant::MissingAuthenticator => NtsErrorKind::MissingAuthenticator,
        NtsLibErrorVariant::AuthenticationFailed => NtsErrorKind::UnauthenticatedResponse,
        NtsLibErrorVariant::MissingNtsCookie | NtsLibErrorVariant::NoCookiesReturned =>
            NtsErrorKind::MissingCookies,
        NtsLibErrorVariant::MalformedNtsExtension
        | NtsLibErrorVariant::InvalidResponse
        | NtsLibErrorVariant::Protocol => NtsErrorKind::MalformedExtensions,
        NtsLibErrorVariant::Tls | NtsLibErrorVariant::KeyExchange => NtsErrorKind::KeHandshakeFailed,
        NtsLibErrorVariant::Timeout => NtsErrorKind::Timeout,
        NtsLibErrorVariant::Io | NtsLibErrorVariant::ServerUnavailable => NtsErrorKind::Network,
        NtsLibErrorVariant::KissOfDeath => NtsErrorKind::Network,
        NtsLibErrorVariant::InvalidConfig | NtsLibErrorVariant::Other => NtsErrorKind::Unknown,
    }
}

impl NtsLibErrorVariant {
    /// Classifies a library error variant into an `NtsErrorKind`.
    pub fn error_kind(&self) -> (k: NtsErrorKind)
        ensures
            k == kind_of_variant(*self),
    {
        match self {
            NtsLibErrorVariant::AeadVerificationFailed => NtsErrorKind::AeadFailure,
            NtsLibErrorVariant::MissingAuthenticator => NtsErrorKind::MissingAuthenticator,
            NtsLibErrorVariant::AuthenticationFailed => NtsErrorKind::UnauthenticatedResponse,
            NtsLibErrorVariant::MissingNtsCookie | NtsLibErrorVariant::NoCookiesReturned =>
                NtsErrorKind::MissingCookies,
            NtsLibErrorVariant::MalformedNtsExtension
            | NtsLibErrorVariant::InvalidResponse
            | NtsLibErrorVariant::Protocol => NtsErrorKind::MalformedExtensions,
            NtsLibErrorVariant::Tls | NtsLibErrorVariant::KeyExchange => NtsErrorKind::KeHandshakeFailed,
            NtsLibErrorVariant::Timeout => NtsErrorKind::Timeout,
            NtsLibErrorVariant::Io | NtsLibErrorVariant::ServerUnavailable => NtsErrorKind::Network,
            NtsLibErrorVariant::KissOfDeath => NtsErrorKind::Network,
            NtsLibErrorVariant::InvalidConfig | NtsLibErrorVariant::Other => NtsErrorKind::Unknown,
        }
    }
}

/// The variant of an NTS client library error (a name for what
/// `lib_error_variant` computes; it depends on the error alone).
pub uninterp spec fn variant_of(err: LibError) -> NtsLibErrorVariant;

/// Tells the variants of `rkik_nts::Error` apart, by a `match` on the
/// library's enum with one arm per variant. Trusted: the contract claims
/// only that the result is the error's variant, named `variant_of`.
#[verifier::external_body]
fn lib_error_variant(err: &LibError) -> (v: NtsLibErrorVariant)
    ensures
        v == variant_of(*err),
{
    match err {
        LibError::Io(_) => V::Io, LibError::Tls(_) => V::Tls,
        LibError::KeyExchange(_) => V::KeyExchange, LibError::Protocol(_) => V::Protocol,
        LibError::InvalidResponse(_) => V::InvalidResponse, LibError::KissOfDeath(_) => V::KissOfDeath,
        LibError::Timeout => V::Timeout, LibError::InvalidConfig(_) => V::InvalidConfig,
        LibError::ServerUnavailable(_) => V::ServerUnavailable,
        LibError::AuthenticationFailed(_) => V::AuthenticationFailed,
        LibError::MissingNtsCookie => V::MissingNtsCookie, LibError::MissingAuthenticator => V::MissingAuthenticator,
        LibError::AeadVerificationFailed(_) => V::AeadVerificationFailed,
        LibError::MalformedNtsExtension(_) => V::MalformedNtsExtension,
        LibError::NoCookiesReturned => V::NoCookiesReturned, LibError::Other(_) => V::Other,
    }
}

/// Classifies an error of the NTS client library.
/// Whatever its payload, a Kiss-o'-Death, an I/O error or an unreachable
/// server is a network error; only a failed AEAD check, a missing
/// authenticator or a failed authentication are security-critical.
pub fn map_nts_error(err: &LibError) -> (k: NtsErrorKind)
    ensures
        k == kind_of_variant(variant_of(*err)),
        variant_of(*err) == V::KissOfDeath ==> k == NtsErrorKind::Network,
        variant_of(*err) == V::Io || variant_of(*err) == V::ServerUnavailable ==> k == NtsErrorKind::Network,
        variant_of(*err) == V::AuthenticationFailed ==> k == NtsErrorKind::UnauthenticatedResponse,
        variant_of(*err) == V::AeadVerificationFailed ==> k == NtsErrorKind::AeadFailure,
        is_security_critical(k) <==> (variant_of(*err) == V::AeadVerificationFailed
            || variant_of(*err) == V::MissingAuthenticator || variant_of(*err) == V::AuthenticationFailed),
{
    let v = lib_error_variant(err);
    let k = v.error_kind();
    proof {
        lemma_library_error_classes(v);
    }
    k
}

impl NtsError {
    /// The structured form of an NTS client library error: its
    /// classification and its display text.
    pub fn from_lib_error(err: &LibError) -> (e: NtsError)
        ensures
            e.kind == kind_of_variant(variant_of(*err)),
            variant_of(*err) == V::KissOfDeath ==> e.kind == NtsErrorKind::Network,
            vstd::string::to_string_from_display_ensures::<LibError>(err, e.message),
    {
        let kind = map_nts_error(err);
        let message = err.to_string();
        NtsError { kind, message }
    }
}


/// How the library's failures are classified: a Kiss-o'-Death (whatever
/// its code), an I/O error or an unreachable server is a network error
/// (plugin exit code 3); a timeout is a timeout; TLS and key-exchange
/// failures are handshake failures; missing cookies, malformed extensions,
/// invalid responses and protocol errors keep their own kinds; invalid
/// configuration and other errors are unknown. Of the library's failures,
/// exactly a failed AEAD check, a missing authenticator and a failed
/// authentication are security-critical (plugin exit code 2).
pub proof fn lemma_library_error_classes(v: NtsLibErrorVariant)
    ensures
        v == V::KissOfDeath ==> kind_of_variant(v) == NtsErrorKind::Network,
        v == V::Io ==> kind_of_variant(v) == NtsErrorKind::Network,
        v == V::ServerUnavailable ==> kind_of_variant(v) == NtsErrorKind::Network,
        v == V::Timeout ==> kind_of_variant(v) == NtsErrorKind::Timeout,
        v == V::Tls || v == V::KeyExchange ==> kind_of_variant(v) == NtsErrorKind::KeHandshakeFailed,
        v == V::MissingNtsCookie || v == V::NoCookiesReturned ==> kind_of_variant(v) == NtsErrorKind::MissingCookies,
        v == V::MalformedNtsExtension || v == V::InvalidResponse || v == V::Protocol
            ==> kind_of_variant(v) == NtsErrorKind::MalformedExtensions,
        v == V::AeadVerificationFailed ==> kind_of_variant(v) == NtsErrorKind::AeadFailure,
        v == V::MissingAuthenticator ==> kind_of_variant(v) == NtsErrorKind::MissingAuthenticator,
        v == V::AuthenticationFailed ==> kind_of_variant(v) == NtsErrorKind::UnauthenticatedResponse,
        v == V::InvalidConfig || v == V::Other ==> kind_of_variant(v) == NtsErrorKind::Unknown,
        is_security_critical(kind_of_variant(v)) <==> (v == V::AeadVerificationFailed
            || v == V::MissingAuthenticator || v == V::AuthenticationFailed),
{
}

/// Where an NTS query stands.
#[derive(Debug, Clone, Copy, PartialEq, Eq, Structural)]
pub enum NtsPhase {
    /// The NTS-KE handshake is under way.
    KeyExchange,
    /// The handshake succeeded; the authenticated time request is under way.
    TimeQuery,
    /// The query has ended, accepted or rejected.
    Finished,
}

/// What the network work of a phase produced.
#[derive(Debug, Clone)]
pub enum NtsEvent {
    /// The NTS-KE handshake succeeded.
    KeyExchangeDone,
    /// The NTS-KE handshake failed.
    KeyExchangeFailed(NtsError),
    /// A time response arrived; whether it carried a valid NTS authenticator.
    TimeReceived { authenticated: bool },
    /// The time request failed.
    TimeQueryFailed(NtsError),
}

/// What the caller is to do next.
#[derive(Debug, Clone)]
pub enum NtsAction {
    /// Send the authenticated time request.
    QueryTime,
    /// Accept the time response, with this validation outcome.
    Accept(NtsValidationOutcome),
    /// Give up with this error, of this kind.
    Reject(RkikError, NtsErrorKind),
}

/// Which events can happen in which phase.
pub open spec fn event_fits(phase: NtsPhase, event: NtsEvent) -> bool {
    match event {
        NtsEvent::KeyExchangeDone | NtsEvent::KeyExchangeFailed(_) => phase == NtsPhase::KeyExchange,
        NtsEvent::TimeReceived { .. } | NtsEvent::TimeQueryFailed(_) => phase == NtsPhase::TimeQuery,
    }
}

/// `prefix`, the error's message, then its kind in square brackets.
pub open spec fn bracketed(prefix: Seq<char>, detail: Seq<char>, kind: NtsErrorKind) -> Seq<char> {
    prefix + detail + " ["@ + kind_name(kind) + "]"@
}

pub open spec fn ke_failed_prefix() -> Seq<char> {
    "NTS-KE failed: "@
}

pub open spec fn time_failed_prefix() -> Seq<char> {
    "NTS time query failed: "@
}

pub open spec fn unauthenticated_text() -> Seq<char> {
    "NTS validation failed: server returned unauthenticated response after NTS-KE"@
}

fn bracketed_message(prefix: &str, detail: &str, kind: NtsErrorKind) -> (s: String)
    ensures
        s@ == bracketed(prefix@, detail@, kind),
{
    let mut s = String::from_str(prefix);
    s.append(detail);
    s.append(" [");
    s.append(kind.as_str());
    s.append("]");
    s
}

/// One decision of an NTS query: from the current phase and what the
/// network work produced, the next phase and what to do.
///
/// A handshake failure or a failed time request is reported with the
/// error's message and its kind in brackets; a response that is not
/// authenticated after a successful handshake is rejected; only an
/// authenticated response is accepted.
pub fn nts_step(phase: NtsPhase, event: NtsEvent) -> (res: (NtsPhase, NtsAction))
    requires
        event_fits(phase, event),
    ensures
        match event {
            NtsEvent::KeyExchangeDone => {
                &&& res.0 == NtsPhase::TimeQuery
                &&& res.1 is QueryTime
            },
            NtsEvent::KeyExchangeFailed(e) => {
                &&& res.0 == NtsPhase::Finished
                &&& res.1 matches NtsAction::Reject(RkikError::Nts(m), k)
                &&& m@ == bracketed(ke_failed_prefix(), e.message@, e.kind)
                &&& k == e.kind
            },
            NtsEvent::TimeQueryFailed(e) => {
                &&& res.0 == NtsPhase::Finished
                &&& res.1 matches NtsAction::Reject(RkikError::Nts(m), k)
                &&& m@ == bracketed(time_failed_prefix(), e.message@, e.kind)
                &&& k == e.kind
            },
            NtsEvent::TimeReceived { authenticated } => {
                &&& res.0 == NtsPhase::Finished
                &&& authenticated ==> (res.1 matches NtsAction::Accept(o) && o.authenticated && o.error is None)
                &&& !authenticated ==> {
                    &&& res.1 matches NtsAction::Reject(RkikError::Nts(m), k)
                    &&& m@ == bracketed(unauthenticated_text(), Seq::empty(), NtsErrorKind::UnauthenticatedResponse)
                    &&& k == NtsErrorKind::UnauthenticatedResponse
                }
            },
        },
{
    match event {
        NtsEvent::KeyExchangeDone => (NtsPhase::TimeQuery, NtsAction::QueryTime),
        NtsEvent::KeyExchangeFailed(e) => {
            let m = bracketed_message("NTS-KE failed: ", e.message.as_str(), e.kind);
            (NtsPhase::Finished, NtsAction::Reject(RkikError::Nts(m), e.kind))
        },
        NtsEvent::TimeQueryFailed(e) => {
            let m = bracketed_message("NTS time query failed: ", e.message.as_str(), e.kind);
            (NtsPhase::Finished, NtsAction::Reject(RkikError::Nts(m), e.kind))
        },
        NtsEvent::TimeReceived { authenticated } => {
            if authenticated {
                (NtsPhase::Finished, NtsAction::Accept(NtsValidationOutcome::success()))
            } else {
                proof {
                    reveal_strlit("");
                }
                let m = bracketed_message(
                    "NTS validation failed: server returned unauthenticated response after NTS-KE",
                    "",
                    NtsErrorKind::UnauthenticatedResponse,
                );
                (NtsPhase::Finished, NtsAction::Reject(RkikError::Nts(m), NtsErrorKind::UnauthenticatedResponse))
            }
        },
    }
}

/// The largest count of nanoseconds a `std::time::Duration` can hold.
pub open spec fn max_duration_nanos() -> int {
    18446744073709551615int * 1000000000int + 999999999int
}

/// The signed clock offset, in nanoseconds, between the local clock and the
/// server's: the server's time since the UNIX epoch minus the local time
/// since the epoch, a time before the epoch counting as zero. Positive means
/// the server is ahead (the local clock is slow).
pub fn offset_nanos(system_since_epoch: Option<u128>, network_since_epoch: Option<u128>) -> (d: i128)
    requires
        system_since_epoch matches Some(s) ==> s <= max_duration_nanos(),
        network_since_epoch matches Some(n) ==> n <= max_duration_nanos(),
    ensures
        d == (match network_since_epoch { Some(n) => n as int, None => 0 })
            - (match system_since_epoch { Some(s) => s as int, None => 0 }),
{
    let sys: u128 = match system_since_epoch { Some(s) => s, None => 0 };
    let net: u128 = match network_since_epoch { Some(n) => n, None => 0 };
    (net as i128) - (sys as i128)
}

/// The plugin exit code of a failed probe: the kind's own code for an NTS
/// failure (2 for security-critical kinds), 3 (UNKNOWN) for any other.
pub fn failure_exit_code(nts_kind: Option<NtsErrorKind>) -> (code: i32)
    ensures
        code == match nts_kind {
            Some(k) => if is_security_critical(k) { 2i32 } else { 3i32 },
            None => 3i32,
        },
        code == 2i32 <==> (nts_kind matches Some(k) && (k == NtsErrorKind::AeadFailure
            || k == NtsErrorKind::MissingAuthenticator || k == NtsErrorKind::UnauthenticatedResponse
            || k == NtsErrorKind::InvalidUniqueId || k == NtsErrorKind::InvalidOriginTimestamp)),
{
    match nts_kind {
        Some(k) => k.plugin_exit_code(),
        None => 3,
    }
}

} // verus!
