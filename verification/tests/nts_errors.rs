use rkik_nts::Error as E;
use rkik::error::RkikError;
use rkik::nts::{
    failure_exit_code, map_nts_error, nts_step, offset_nanos, NtsAction, NtsError, NtsErrorKind, NtsEvent,
    NtsLibErrorVariant, NtsPhase, NtsValidationOutcome,
};

const ALL_KINDS: [NtsErrorKind; 12] = [
    NtsErrorKind::KeHandshakeFailed,
    NtsErrorKind::CertificateInvalid,
    NtsErrorKind::MissingCookies,
    NtsErrorKind::AeadFailure,
    NtsErrorKind::MissingAuthenticator,
    NtsErrorKind::InvalidUniqueId,
    NtsErrorKind::InvalidOriginTimestamp,
    NtsErrorKind::MalformedExtensions,
    NtsErrorKind::UnauthenticatedResponse,
    NtsErrorKind::Timeout,
    NtsErrorKind::Network,
    NtsErrorKind::Unknown,
];

#[test]
fn kind_names_are_snake_case() {
    let names: Vec<&str> = ALL_KINDS.iter().map(|k| k.as_str()).collect();
    assert_eq!(
        names,
        vec![
            "ke_handshake_failed",
            "certificate_invalid",
            "missing_cookies",
            "aead_failure",
            "missing_authenticator",
            "invalid_unique_id",
            "invalid_origin_timestamp",
            "malformed_extensions",
            "unauthenticated_response",
            "timeout",
            "network",
            "unknown",
        ]
    );
    assert_eq!(NtsErrorKind::AeadFailure.to_string(), "aead_failure");
}

#[test]
fn security_critical_kinds_exit_critical() {
    for k in ALL_KINDS {
        let critical = matches!(
            k,
            NtsErrorKind::AeadFailure
                | NtsErrorKind::MissingAuthenticator
                | NtsErrorKind::UnauthenticatedResponse
                | NtsErrorKind::InvalidUniqueId
                | NtsErrorKind::InvalidOriginTimestamp
        );
        assert_eq!(k.plugin_exit_code(), if critical { 2 } else { 3 });
    }
}

#[test]
fn library_errors_are_classified() {
    let cases: Vec<(E, NtsErrorKind)> = vec![
        (E::AeadVerificationFailed("tag".into()), NtsErrorKind::AeadFailure),
        (E::MissingAuthenticator, NtsErrorKind::MissingAuthenticator),
        (E::AuthenticationFailed("x".into()), NtsErrorKind::UnauthenticatedResponse),
        (E::MissingNtsCookie, NtsErrorKind::MissingCookies),
        (E::NoCookiesReturned, NtsErrorKind::MissingCookies),
        (E::MalformedNtsExtension("x".into()), NtsErrorKind::MalformedExtensions),
        (E::InvalidResponse("x".into()), NtsErrorKind::MalformedExtensions),
        (E::Protocol("x".into()), NtsErrorKind::MalformedExtensions),
        (E::Tls("x".into()), NtsErrorKind::KeHandshakeFailed),
        (E::KeyExchange("x".into()), NtsErrorKind::KeHandshakeFailed),
        (E::Timeout, NtsErrorKind::Timeout),
        (E::Io(std::io::Error::new(std::io::ErrorKind::Other, "x")), NtsErrorKind::Network),
        (E::ServerUnavailable("x".into()), NtsErrorKind::Network),
        (E::KissOfDeath("RATE".into()), NtsErrorKind::Network),
        (E::InvalidConfig("x".into()), NtsErrorKind::Unknown),
        (E::Other("x".into()), NtsErrorKind::Unknown),
    ];
    for (err, kind) in cases {
        assert_eq!(map_nts_error(&err), kind);
    }
}

#[test]
fn variant_table_matches_classification() {
    assert_eq!(NtsLibErrorVariant::KissOfDeath.error_kind(), NtsErrorKind::Network);
    assert_eq!(NtsLibErrorVariant::Protocol.error_kind(), NtsErrorKind::MalformedExtensions);
    assert_eq!(NtsLibErrorVariant::Other.error_kind(), NtsErrorKind::Unknown);
}

#[test]
fn structured_error_keeps_library_message() {
    let e = NtsError::from_lib_error(&rkik_nts::Error::Timeout);
    assert_eq!(e.kind, NtsErrorKind::Timeout);
    assert_eq!(e.message, "Operation timed out");
    let e = NtsError::from_lib_error(&rkik_nts::Error::AeadVerificationFailed("bad tag".into()));
    assert_eq!(e.kind, NtsErrorKind::AeadFailure);
    assert_eq!(e.to_string(), "AEAD verification failed: bad tag");
}

#[test]
fn validation_outcomes() {
    let ok = NtsValidationOutcome::success();
    assert!(ok.authenticated);
    assert!(ok.error.is_none());
    let bad = NtsValidationOutcome::failure(NtsError::new(NtsErrorKind::AeadFailure, "NTS AEAD authentication failed".to_string()));
    assert!(!bad.authenticated);
    let e = bad.error.unwrap();
    assert_eq!(e.kind, NtsErrorKind::AeadFailure);
    assert_eq!(e.message, "NTS AEAD authentication failed");
}

fn rejection(action: NtsAction) -> String {
    match action {
        NtsAction::Reject(RkikError::Nts(m), _) => m,
        other => panic!("expected an NTS rejection, got {:?}", other),
    }
}

#[test]
fn handshake_success_then_authenticated_time_is_accepted() {
    let (phase, action) = nts_step(NtsPhase::KeyExchange, NtsEvent::KeyExchangeDone);
    assert_eq!(phase, NtsPhase::TimeQuery);
    assert!(matches!(action, NtsAction::QueryTime));
    let (phase, action) = nts_step(phase, NtsEvent::TimeReceived { authenticated: true });
    assert_eq!(phase, NtsPhase::Finished);
    match action {
        NtsAction::Accept(o) => assert!(o.authenticated && o.error.is_none()),
        other => panic!("expected acceptance, got {:?}", other),
    }
}

#[test]
fn unauthenticated_response_is_rejected() {
    let (phase, action) = nts_step(NtsPhase::TimeQuery, NtsEvent::TimeReceived { authenticated: false });
    assert_eq!(phase, NtsPhase::Finished);
    assert_eq!(
        rejection(action),
        "NTS validation failed: server returned unauthenticated response after NTS-KE [unauthenticated_response]"
    );
}

#[test]
fn failures_name_their_kind_in_brackets() {
    let e = NtsError::new(NtsErrorKind::Timeout, "connection timed out".to_string());
    let (phase, action) = nts_step(NtsPhase::KeyExchange, NtsEvent::KeyExchangeFailed(e));
    assert_eq!(phase, NtsPhase::Finished);
    assert_eq!(rejection(action), "NTS-KE failed: connection timed out [timeout]");
    let e = NtsError::from_lib_error(&rkik_nts::Error::MissingAuthenticator);
    let (_, action) = nts_step(NtsPhase::TimeQuery, NtsEvent::TimeQueryFailed(e));
    assert_eq!(rejection(action), "NTS time query failed: Missing NTS authenticator [missing_authenticator]");
}

#[test]
fn offset_is_signed_server_minus_local() {
    assert_eq!(offset_nanos(Some(1_000_000_000), Some(1_001_243_000)), 1_243_000);
    assert_eq!(offset_nanos(Some(2_000), Some(500)), -1_500);
    assert_eq!(offset_nanos(None, Some(7)), 7);
    assert_eq!(offset_nanos(Some(7), None), -7);
    assert_eq!(offset_nanos(None, None), 0);
}

#[test]
fn rejections_carry_their_kind() {
    let e = NtsError::new(NtsErrorKind::AeadFailure, "bad tag".to_string());
    match nts_step(NtsPhase::TimeQuery, NtsEvent::TimeQueryFailed(e)).1 {
        NtsAction::Reject(_, k) => assert_eq!(k, NtsErrorKind::AeadFailure),
        other => panic!("unexpected {:?}", other),
    }
    match nts_step(NtsPhase::TimeQuery, NtsEvent::TimeReceived { authenticated: false }).1 {
        NtsAction::Reject(_, k) => assert_eq!(k, NtsErrorKind::UnauthenticatedResponse),
        other => panic!("unexpected {:?}", other),
    }
}

#[test]
fn failed_probes_exit_by_kind() {
    assert_eq!(failure_exit_code(Some(NtsErrorKind::MissingAuthenticator)), 2);
    assert_eq!(failure_exit_code(Some(NtsErrorKind::Timeout)), 3);
    assert_eq!(failure_exit_code(None), 3);
    let kind = map_nts_error(&rkik_nts::Error::AeadVerificationFailed("x".into()));
    assert_eq!(failure_exit_code(Some(kind)), 2);
}
