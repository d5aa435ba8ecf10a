use signal_node_error::{
    Argument, new_js_error, throw_invalid_uri, node_registerErrors, throw_classified, CancellationError, ChatServiceError,
    Classification, ConstructorCall, DeviceTransferError, Dispatch, EnclaveError, ErrorKind,
    ExtraProperties, HsmEnclaveError, IoError, IoErrorKind, LookupError, Mp4Error,
    ProofVerificationFailure, PropertyKey, PropertyValue, ProtocolAddress, Raised, ReadError,
    Registry, SignalCryptoError, SignalNodeError, SignalProtocolError, Svr3Error, Throw,
    UsernameError, UsernameLinkError, WebpError, ZkGroupDeserializationFailure,
    ZkGroupVerificationFailure,
};

/// Stands for the host's handle to its table of classes.
#[derive(Debug, PartialEq, Eq)]
struct Classes(u32);

/// Stands for an exception object that the host built.
#[derive(Debug, PartialEq, Eq)]
struct Built(u32);

type Outcome = Result<(), Dispatch<u32>>;

fn installed() -> Registry<Classes> {
    let mut registry = Registry::new();
    assert_eq!(node_registerErrors(&mut registry, Classes(1)), Ok(()));
    registry
}

fn invalid_uri() -> http::uri::InvalidUri {
    "".parse::<http::Uri>().unwrap_err()
}

fn call(
    message: &str,
    kind: Option<ErrorKind>,
    operation_name: &str,
    extra: Option<ExtraProperties>,
) -> ConstructorCall {
    ConstructorCall {
        message: message.to_string(),
        kind,
        operation_name: operation_name.to_string(),
        extra,
    }
}

#[test]
fn registry_starts_empty() {
    let registry: Registry<Classes> = Registry::new();
    assert!(!registry.is_installed());
    assert_eq!(registry.classes(), None);
}

#[test]
fn registry_is_written_once() {
    let mut registry = Registry::new();
    assert_eq!(node_registerErrors(&mut registry, Classes(1)), Ok(()));
    assert!(registry.is_installed());
    assert_eq!(registry.classes(), Some(&Classes(1)));
    assert_eq!(node_registerErrors(&mut registry, Classes(2)), Err(Classes(2)));
    assert!(registry.is_installed());
    assert_eq!(registry.classes(), Some(&Classes(1)));
    assert_eq!(node_registerErrors(&mut registry, Classes(1)), Err(Classes(1)));
    assert!(registry.is_installed());
    assert_eq!(registry.classes(), Some(&Classes(1)));
}

#[test]
fn name_of_the_base_class() {
    assert_eq!(signal_node_error::registry::ERROR_CLASS_NAME, "LibSignalErrorBase");
}

#[test]
fn new_js_error_hands_the_arguments_on() {
    let extra = ExtraProperties::single(PropertyKey::RetryAfterSecs, PropertyValue::Number(5));
    let built = new_js_error(
        &installed(),
        Some(ErrorKind::RateLimitedError),
        "retry later",
        "CdsiLookup_new",
        Some(extra),
    );
    assert_eq!(
        built,
        Some(call(
            "retry later",
            Some(ErrorKind::RateLimitedError),
            "CdsiLookup_new",
            Some(ExtraProperties::single(PropertyKey::RetryAfterSecs, PropertyValue::Number(5)))
        ))
    );
}

#[test]
fn new_js_error_for_the_base_class() {
    assert_eq!(
        new_js_error(&installed(), None, "", "", None),
        Some(call("", None, "", None))
    );
}

#[test]
fn new_js_error_without_classes_is_empty() {
    let registry: Registry<Classes> = Registry::new();
    assert_eq!(
        new_js_error(&registry, Some(ErrorKind::IoError), "broken pipe", "Chat_connect", None),
        None
    );
}

#[test]
fn throw_constructs_through_the_classes() {
    let outcome: Outcome = UsernameError::NicknameTooShort.throw(
        "nickname too short".to_string(),
        &installed(),
        "Username_Hash",
    );
    assert_eq!(
        outcome,
        Err(Dispatch::Construct(call(
            "nickname too short",
            Some(ErrorKind::NicknameTooShort),
            "Username_Hash",
            None
        )))
    );
}

#[test]
fn throw_hands_the_properties_to_the_constructor() {
    let address = ProtocolAddress::new("alice".to_string(), 1);
    let outcome: Outcome = SignalProtocolError::UntrustedIdentity(address).throw(
        "untrusted identity for address alice.1".to_string(),
        &installed(),
        "SessionCipher_EncryptMessage",
    );
    assert_eq!(
        outcome,
        Err(Dispatch::Construct(call(
            "untrusted identity for address alice.1",
            Some(ErrorKind::UntrustedIdentity),
            "SessionCipher_EncryptMessage",
            Some(ExtraProperties::single(
                PropertyKey::Addr,
                PropertyValue::Text("alice".to_string())
            ))
        )))
    );
}

#[test]
fn rate_limited_lookup_is_thrown_with_retry_after_secs() {
    let outcome: Outcome = LookupError::RateLimited { retry_after_seconds: 120 }.throw(
        "retry later".to_string(),
        &installed(),
        "CdsiLookup_new",
    );
    match outcome {
        Err(Dispatch::Construct(call)) => {
            assert_eq!(call.kind.unwrap().name(), "RateLimitedError");
            let (key, value) = call.extra.unwrap().into_entry();
            assert_eq!(key.name(), "retryAfterSecs");
            assert_eq!(value, PropertyValue::Number(120));
            assert_eq!(call.message, "retry later");
            assert_eq!(call.operation_name, "CdsiLookup_new");
        }
        other => panic!("unexpected outcome {:?}", other),
    }
}

#[test]
fn restore_failed_is_thrown_with_tries_remaining() {
    let outcome: Outcome =
        Svr3Error::RestoreFailed(2).throw("restore failed".to_string(), &installed(), "Svr3Restore");
    match outcome {
        Err(Dispatch::Construct(call)) => {
            assert_eq!(call.kind.unwrap().name(), "SvrRestoreFailed");
            let (key, value) = call.extra.unwrap().into_entry();
            assert_eq!(key.name(), "triesRemaining");
            assert_eq!(value, PropertyValue::Number(2));
        }
        other => panic!("unexpected outcome {:?}", other),
    }
}

#[test]
fn base_class_errors_are_thrown_without_a_kind() {
    let outcome: Outcome =
        SignalCryptoError.throw("invalid key size".to_string(), &installed(), "Aes256GcmSiv_New");
    assert_eq!(
        outcome,
        Err(Dispatch::Construct(call("invalid key size", None, "Aes256GcmSiv_New", None)))
    );
    let outcome: Outcome =
        LookupError::InvalidArgument.throw("bad request".to_string(), &installed(), "Cdsi");
    assert_eq!(outcome, Err(Dispatch::Construct(call("bad request", None, "Cdsi", None))));
    let outcome: Outcome =
        Svr3Error::Protocol.throw("bad answer".to_string(), &installed(), "Svr3Backup");
    assert_eq!(outcome, Err(Dispatch::Construct(call("bad answer", None, "Svr3Backup", None))));
}

#[test]
fn invalid_uri_is_thrown_as_its_class() {
    let error = invalid_uri();
    let message = error.to_string();
    assert_eq!(message, "empty string");
    let outcome: Outcome = error.throw(message, &installed(), "ConnectionManager_set_proxy");
    assert_eq!(
        outcome,
        Err(Dispatch::Construct(call(
            "empty string",
            Some(ErrorKind::InvalidUri),
            "ConnectionManager_set_proxy",
            None
        )))
    );
}

#[test]
fn cancellation_is_thrown_as_its_class() {
    let outcome: Outcome =
        CancellationError.throw("cancelled".to_string(), &installed(), "Chat_send");
    assert_eq!(
        outcome,
        Err(Dispatch::Construct(call("cancelled", Some(ErrorKind::Cancelled), "Chat_send", None)))
    );
}

#[test]
fn backup_errors_are_thrown_with_the_message_of_the_inner_error() {
    let error = ReadError {
        error: "frame is not a chat".to_string(),
        found_unknown_fields: vec!["tag 17".to_string()],
    };
    let outcome: Outcome =
        error.throw("validation failed".to_string(), &installed(), "MessageBackup_Validate");
    assert_eq!(
        outcome,
        Err(Dispatch::Construct(call(
            "frame is not a chat",
            Some(ErrorKind::BackupValidation),
            "MessageBackup_Validate",
            Some(ExtraProperties::single(
                PropertyKey::UnknownFields,
                PropertyValue::TextList(vec!["tag 17".to_string()])
            ))
        )))
    );
}

#[test]
fn wrapped_attestation_errors_are_thrown_as_the_inner_error() {
    let direct: Outcome = EnclaveError.throw("quote is stale".to_string(), &installed(), "Cdsi");
    let through_lookup: Outcome =
        LookupError::AttestationError(EnclaveError, "quote is stale".to_string()).throw(
            "attestation failed: quote is stale".to_string(),
            &installed(),
            "Cdsi",
        );
    let through_recovery: Outcome =
        Svr3Error::AttestationError(EnclaveError, "quote is stale".to_string()).throw(
            "attestation failed: quote is stale".to_string(),
            &installed(),
            "Cdsi",
        );
    assert_eq!(direct, Err(Dispatch::Construct(call("quote is stale", None, "Cdsi", None))));
    assert_eq!(through_lookup, direct);
    assert_eq!(through_recovery, direct);

    let empty: Registry<Classes> = Registry::new();
    let direct: Outcome = EnclaveError.throw("quote is stale".to_string(), &empty, "Cdsi");
    let through_lookup: Outcome =
        LookupError::AttestationError(EnclaveError, "quote is stale".to_string()).throw(
            "attestation failed".to_string(),
            &empty,
            "Cdsi",
        );
    assert_eq!(
        direct,
        Err(Dispatch::Fallback { message: "quote is stale".to_string(), kind: None })
    );
    assert_eq!(through_lookup, direct);
}

#[test]
fn without_classes_the_message_is_still_thrown() {
    let registry: Registry<Classes> = Registry::new();
    let outcome: Outcome = LookupError::RateLimited { retry_after_seconds: 120 }.throw(
        "retry later".to_string(),
        &registry,
        "CdsiLookup_new",
    );
    assert_eq!(
        outcome,
        Err(Dispatch::Fallback {
            message: "retry later".to_string(),
            kind: Some(ErrorKind::RateLimitedError),
        })
    );
    let raised: Raised<Built, u32> = outcome.unwrap_err().settle(None);
    assert_eq!(raised, Raised::Message("retry later".to_string()));
    let fallback: Dispatch<u32> =
        Dispatch::Fallback { message: "retry later".to_string(), kind: None };
    let raised: Raised<Built, u32> = fallback.settle(Some(Built(7)));
    assert_eq!(raised, Raised::Message("retry later".to_string()));
}

#[test]
fn failed_construction_still_throws_the_message() {
    let outcome: Outcome =
        ChatServiceError::AppExpired.throw("app expired".to_string(), &installed(), "Chat_connect");
    let raised: Raised<Built, u32> = outcome.unwrap_err().settle(None);
    assert_eq!(raised, Raised::Message("app expired".to_string()));
}

#[test]
fn successful_construction_throws_the_built_exception() {
    let outcome: Outcome =
        ChatServiceError::AppExpired.throw("app expired".to_string(), &installed(), "Chat_connect");
    let raised: Raised<Built, u32> = outcome.unwrap_err().settle(Some(Built(7)));
    assert_eq!(raised, Raised::Constructed(Built(7)));
}

#[test]
fn settle_looks_at_the_built_object_only_after_a_constructor_call() {
    let raised: Raised<Built, u32> = Dispatch::Rethrow(4).settle(Some(Built(7)));
    assert_eq!(raised, Raised::Rethrown(4));
    let raised: Raised<Built, u32> = Dispatch::Message("plain".to_string()).settle(Some(Built(7)));
    assert_eq!(raised, Raised::Message("plain".to_string()));
    let raised: Raised<Built, u32> = Dispatch::Pending.settle(Some(Built(7)));
    assert_eq!(raised, Raised::Pending);
    let raised: Raised<Built, u32> = Dispatch::Rethrow(4).settle(None);
    assert_eq!(raised, Raised::Rethrown(4));
}

#[test]
fn a_pending_exception_passes() {
    let outcome: Outcome = Throw.throw("never seen".to_string(), &installed(), "Any");
    assert_eq!(outcome, Err(Dispatch::Pending));
    let empty: Registry<Classes> = Registry::new();
    let outcome: Outcome = Throw.throw("never seen".to_string(), &empty, "Any");
    assert_eq!(outcome, Err(Dispatch::Pending));
}

#[test]
fn throw_classified_builds_the_call() {
    let classification = Classification::with(
        ErrorKind::SvrRestoreFailed,
        PropertyKey::TriesRemaining,
        PropertyValue::Number(1),
    );
    let outcome: Outcome =
        throw_classified(classification, "one try left".to_string(), &installed(), "Svr3Restore");
    assert_eq!(
        outcome,
        Err(Dispatch::Construct(call(
            "one try left",
            Some(ErrorKind::SvrRestoreFailed),
            "Svr3Restore",
            Some(ExtraProperties::single(PropertyKey::TriesRemaining, PropertyValue::Number(1)))
        )))
    );
    let empty: Registry<Classes> = Registry::new();
    let outcome: Outcome =
        throw_classified(Classification::base(), "plain".to_string(), &empty, "Any");
    assert_eq!(outcome, Err(Dispatch::Fallback { message: "plain".to_string(), kind: None }));
}

fn throws_once<E: SignalNodeError<u32>>(error: E, registry: &Registry<Classes>) {
    let outcome: Outcome = error.throw("failure".to_string(), registry, "Operation");
    assert!(outcome.is_err());
}

fn every_family_throws(registry: &Registry<Classes>) {
    throws_once(SignalProtocolError::DuplicatedMessage, registry);
    throws_once(SignalProtocolError::SealedSenderSelfSend, registry);
    throws_once(
        SignalProtocolError::UntrustedIdentity(ProtocolAddress::new("a".to_string(), 1)),
        registry,
    );
    throws_once(
        SignalProtocolError::InvalidRegistrationId(ProtocolAddress::new("a".to_string(), 1), 0),
        registry,
    );
    throws_once(SignalProtocolError::InvalidSessionStructure, registry);
    throws_once(SignalProtocolError::InvalidSenderKeySession { distribution_id: 1 }, registry);
    throws_once(signal_node_error::js_error_to_rust("getIdentity", "gone".to_string()), registry);
    throws_once(SignalProtocolError::Other, registry);
    throws_once(DeviceTransferError, registry);
    throws_once(HsmEnclaveError, registry);
    throws_once(EnclaveError, registry);
    throws_once(SignalCryptoError, registry);
    throws_once(ZkGroupVerificationFailure, registry);
    throws_once(ZkGroupDeserializationFailure, registry);
    throws_once(UsernameError::MissingSeparator, registry);
    throws_once(ProofVerificationFailure, registry);
    throws_once(UsernameLinkError::HmacMismatch, registry);
    throws_once(Mp4Error::Io, registry);
    throws_once(WebpError::Io, registry);
    throws_once(IoError::plain(IoErrorKind::Specific), registry);
    throws_once(IoError::plain(IoErrorKind::Other), registry);
    throws_once(ChatServiceError::Other, registry);
    throws_once(invalid_uri(), registry);
    throws_once(LookupError::Server, registry);
    throws_once(LookupError::AttestationError(EnclaveError, "inner".to_string()), registry);
    throws_once(Svr3Error::DataMissing, registry);
    throws_once(Svr3Error::AttestationError(EnclaveError, "inner".to_string()), registry);
    throws_once(CancellationError, registry);
    throws_once(ReadError { error: "e".to_string(), found_unknown_fields: vec![] }, registry);
    throws_once(Throw, registry);
}

#[test]
fn every_family_throws_and_returns_no_value() {
    every_family_throws(&installed());
    every_family_throws(&Registry::new());
}

#[test]
fn constructor_arguments_come_in_the_constructor_order() {
    let with_everything = call(
        "retry later",
        Some(ErrorKind::RateLimitedError),
        "CdsiLookup_new",
        Some(ExtraProperties::single(PropertyKey::RetryAfterSecs, PropertyValue::Number(120))),
    );
    assert_eq!(
        with_everything.arguments(),
        vec![
            Argument::Text("retry later".to_string()),
            Argument::Text("RateLimitedError".to_string()),
            Argument::Text("CdsiLookup_new".to_string()),
            Argument::Properties(ExtraProperties::single(
                PropertyKey::RetryAfterSecs,
                PropertyValue::Number(120)
            )),
        ]
    );
    let bare = call("invalid key size", None, "Aes256GcmSiv_New", None);
    assert_eq!(
        bare.arguments(),
        vec![
            Argument::Text("invalid key size".to_string()),
            Argument::Undefined,
            Argument::Text("Aes256GcmSiv_New".to_string()),
            Argument::Undefined,
        ]
    );
}

#[test]
fn constructor_arguments_copy_every_kind_of_property() {
    for value in [
        PropertyValue::Text("alice".to_string()),
        PropertyValue::Number(u32::MAX),
        PropertyValue::Address(ProtocolAddress::new("alice".to_string(), 2)),
        PropertyValue::TextList(vec!["a".to_string(), "b".to_string()]),
    ] {
        let copy = value.clone();
        assert_eq!(copy, value);
        let properties = ExtraProperties::single(PropertyKey::Addr, value);
        assert_eq!(properties.clone(), properties);
        let arguments = call("m", None, "o", Some(properties.clone())).arguments();
        assert_eq!(arguments[3], Argument::Properties(properties));
    }
}

#[test]
fn invalid_uri_is_thrown_with_its_own_text() {
    let too_long = format!("http://localhost/{}", "a".repeat(70 * 1024));
    let cases = [
        ("", Some("empty string")),
        (too_long.as_str(), Some("uri too long")),
        ("http://[::1", None),
        ("localhost:8080:3030", None),
    ];
    for (input, text) in cases {
        let expected = input.parse::<http::Uri>().unwrap_err().to_string();
        assert!(!expected.is_empty());
        if let Some(text) = text {
            assert_eq!(expected, text);
        }
        let error = input.parse::<http::Uri>().unwrap_err();
        let outcome: Outcome = throw_invalid_uri(error, &installed(), "Net_set_proxy");
        assert_eq!(
            outcome,
            Err(Dispatch::Construct(call(
                &expected,
                Some(ErrorKind::InvalidUri),
                "Net_set_proxy",
                None
            )))
        );
        let error = input.parse::<http::Uri>().unwrap_err();
        let empty: Registry<Classes> = Registry::new();
        let outcome: Outcome = throw_invalid_uri(error, &empty, "Net_set_proxy");
        assert_eq!(
            outcome,
            Err(Dispatch::Fallback { message: expected, kind: Some(ErrorKind::InvalidUri) })
        );
    }
}
