//! What holds of the crossing as a whole, stated over the functions by which
//! the contracts of the other modules speak.

use crate::capture::{captured, IoError, IoErrorKind, ThrownException, ThrownExceptionView, ThrownValue};
use crate::dispatch::{through_registry, DispatchView, RaisedView, SignalNodeError};
use crate::kind::{ErrorKind, PropertyKey};
use crate::net::{LookupError, Svr3Error};
use crate::properties::ClassificationView;
use crate::base::EnclaveError;
use vstd::prelude::*;

verus! {

/// Two kinds with the same name are the same kind: the host can tell every
/// class from every other by its name.
pub proof fn lemma_kind_names_differ(a: ErrorKind, b: ErrorKind)
    requires
        a.name_spec() == b.name_spec(),
    ensures
        a == b,
{
    reveal_strlit("DuplicatedMessage");
    reveal_strlit("SealedSenderSelfSend");
    reveal_strlit("UntrustedIdentity");
    reveal_strlit("InvalidRegistrationId");
    reveal_strlit("InvalidSession");
    reveal_strlit("InvalidSenderKeySession");
    reveal_strlit("BadNicknameCharacter");
    reveal_strlit("NicknameTooShort");
    reveal_strlit("NicknameTooLong");
    reveal_strlit("NicknameCannotBeEmpty");
    reveal_strlit("CannotStartWithDigit");
    reveal_strlit("MissingSeparator");
    reveal_strlit("DiscriminatorCannotBeEmpty");
    reveal_strlit("DiscriminatorCannotBeZero");
    reveal_strlit("DiscriminatorCannotBeSingleDigit");
    reveal_strlit("DiscriminatorCannotHaveLeadingZeros");
    reveal_strlit("BadDiscriminatorCharacter");
    reveal_strlit("DiscriminatorTooLarge");
    reveal_strlit("InputDataTooLong");
    reveal_strlit("InvalidEntropyDataLength");
    reveal_strlit("InvalidUsernameLinkEncryptedData");
    reveal_strlit("IoError");
    reveal_strlit("InvalidMediaInput");
    reveal_strlit("UnsupportedMediaInput");
    reveal_strlit("ChatServiceInactive");
    reveal_strlit("AppExpired");
    reveal_strlit("DeviceDelinked");
    reveal_strlit("InvalidUri");
    reveal_strlit("RateLimitedError");
    reveal_strlit("CdsiInvalidToken");
    reveal_strlit("SvrDataMissing");
    reveal_strlit("SvrRequestFailed");
    reveal_strlit("SvrRestoreFailed");
    reveal_strlit("Cancelled");
    reveal_strlit("BackupValidation");
    let name = a.name_spec();
    let other = b.name_spec();
    assert(name.len() == other.len());
    assert(name[0] == other[0]);
    assert(name[5] == other[5]);
}

/// Two property keys with the same name are the same key.
pub proof fn lemma_property_names_differ(a: PropertyKey, b: PropertyKey)
    requires
        a.name_spec() == b.name_spec(),
    ensures
        a == b,
{
    reveal_strlit("_addr");
    reveal_strlit("distribution_id");
    reveal_strlit("retryAfterSecs");
    reveal_strlit("triesRemaining");
    reveal_strlit("unknownFields");
    let name = a.name_spec();
    let other = b.name_spec();
    assert(name.len() == other.len());
    assert(name[0] == other[0]);
}

/// A throw through the module's classes always ends in an exception that
/// tells of the failure: the one that the host built, or, where no classes are
/// installed or the host could not build it, a base exception that carries
/// the message.
pub proof fn lemma_construction_failure_keeps_message<O, R>(
    classification: ClassificationView,
    message: Seq<char>,
    installed: bool,
    operation_name: Seq<char>,
    built: Option<O>,
)
    ensures
        through_registry::<R>(classification, message, false, operation_name).settled(built)
            == RaisedView::<O, R>::Message(message),
        through_registry::<R>(classification, message, installed, operation_name).settled(
            None::<O>,
        ) == RaisedView::<O, R>::Message(message),
        installed && built is Some ==> through_registry::<R>(
            classification,
            message,
            installed,
            operation_name,
        ).settled(built) == RaisedView::<O, R>::Constructed(built->Some_0),
{
}

/// A failed attestation inside a lookup error is classified and thrown as the
/// attestation error itself would be, with that error's message.
pub proof fn lemma_lookup_delegates_to_attestation<R>(
    inner: EnclaveError,
    inner_message: String,
    message: Seq<char>,
    installed: bool,
    operation_name: Seq<char>,
)
    ensures
        LookupError::AttestationError(inner, inner_message).classification()
            == inner.classification(),
        SignalNodeError::<R>::thrown(
            LookupError::AttestationError(inner, inner_message),
            message,
            installed,
            operation_name,
        ) == SignalNodeError::<R>::thrown(inner, inner_message@, installed, operation_name),
{
}

/// A failed attestation inside a recovery error is classified and thrown as
/// the attestation error itself would be, with that error's message.
pub proof fn lemma_recovery_delegates_to_attestation<R>(
    inner: EnclaveError,
    inner_message: String,
    message: Seq<char>,
    installed: bool,
    operation_name: Seq<char>,
)
    ensures
        Svr3Error::AttestationError(inner, inner_message).classification()
            == inner.classification(),
        SignalNodeError::<R>::thrown(
            Svr3Error::AttestationError(inner, inner_message),
            message,
            installed,
            operation_name,
        ) == SignalNodeError::<R>::thrown(inner, inner_message@, installed, operation_name),
{
}

/// What a host callback throws comes back as it went in, whatever the
/// module's state and the error's textual form: a captured exception object
/// that travels in an I/O error of no kind in particular is raised again as
/// that same object, and a captured string as a base exception whose message
/// is that string.
pub proof fn lemma_capture_round_trip<O, R>(
    value: ThrownValue<R>,
    capture: ThrownException<R>,
    message: Seq<char>,
    installed: bool,
    operation_name: Seq<char>,
    built: Option<O>,
)
    requires
        capture@ == captured(value),
    ensures
        ({
            let carrier = IoError { kind: IoErrorKind::Other, payload: Some(capture) };
            let raised = carrier.thrown(message, installed, operation_name).settled(built);
            match value {
                ThrownValue::Exception(reference) => raised == RaisedView::<O, R>::Rethrown(
                    reference,
                ),
                ThrownValue::Text(text) => raised == RaisedView::<O, R>::Message(text@),
                ThrownValue::Other(text) => raised == RaisedView::<O, R>::Message(text@),
            }
        }),
{
}

/// A capture is released once. What it leaves behind holds no object: released
/// again, it asks for a base exception with an empty message, never for the
/// object a second time.
pub proof fn lemma_capture_is_single_use<R>(capture: ThrownExceptionView<R>)
    ensures
        ThrownExceptionView::<R>::empty().released() == DispatchView::<R>::Message(
            Seq::<char>::empty(),
        ),
        capture matches ThrownExceptionView::Error(reference) ==> capture.released()
            == DispatchView::Rethrow(reference) && ThrownExceptionView::<R>::empty().released()
            != DispatchView::Rethrow(reference),
{
}

} // verus!
