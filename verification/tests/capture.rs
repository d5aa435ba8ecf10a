use signal_node_error::{
    js_error_to_rust, node_registerErrors, CallbackError, Dispatch, IoError, IoErrorKind, Raised,
    Registry, SignalNodeError, SignalProtocolError, ThrownException, ThrownValue,
};
use std::rc::Rc;

/// Stands for an exception object of the host, with fields of its own.
#[derive(Debug, PartialEq, Eq)]
struct HostException {
    message: String,
    code: u32,
    context: Vec<String>,
}

type Reference = Rc<HostException>;

type Outcome = Result<(), Dispatch<Reference>>;

fn thrown_object() -> Reference {
    Rc::new(HostException {
        message: "store failed".to_string(),
        code: 41,
        context: vec!["saveIdentity".to_string(), "transaction 8".to_string()],
    })
}

fn registries() -> [Registry<u8>; 2] {
    let mut installed = Registry::new();
    assert_eq!(node_registerErrors(&mut installed, 1), Ok(()));
    [Registry::new(), installed]
}

#[test]
fn an_exception_object_is_captured_by_reference() {
    let object = thrown_object();
    let capture = ThrownException::from_value(ThrownValue::Exception(object.clone()));
    match capture {
        ThrownException::Error(reference) => assert!(Rc::ptr_eq(&reference, &object)),
        other => panic!("unexpected capture {:?}", other),
    }
}

#[test]
fn a_string_is_captured_as_it_is() {
    let capture: ThrownException<Reference> =
        ThrownException::from_value(ThrownValue::Text("out of cheese".to_string()));
    assert_eq!(capture, ThrownException::String("out of cheese".to_string()));
}

#[test]
fn any_other_value_is_captured_as_its_text() {
    let capture: ThrownException<Reference> =
        ThrownException::from_value(ThrownValue::Other("[object Object]".to_string()));
    assert_eq!(capture, ThrownException::String("[object Object]".to_string()));
}

#[test]
fn the_default_capture_is_empty() {
    let capture: ThrownException<Reference> = ThrownException::default();
    assert_eq!(capture, ThrownException::String(String::new()));
}

#[test]
fn take_moves_the_capture_out() {
    let object = thrown_object();
    let mut capture = ThrownException::Error(object.clone());
    let taken = capture.take();
    assert_eq!(taken, ThrownException::Error(object));
    assert_eq!(capture, ThrownException::String(String::new()));
}

#[test]
fn a_captured_object_is_released_as_the_same_object() {
    let object = thrown_object();
    let mut capture = ThrownException::from_value(ThrownValue::Exception(object.clone()));
    match capture.release() {
        Dispatch::Rethrow(reference) => {
            assert!(Rc::ptr_eq(&reference, &object));
            assert_eq!(reference.code, 41);
            assert_eq!(reference.context, ["saveIdentity", "transaction 8"]);
        }
        other => panic!("unexpected dispatch {:?}", other),
    }
}

#[test]
fn a_captured_string_is_released_as_a_message() {
    let mut capture: ThrownException<Reference> =
        ThrownException::from_value(ThrownValue::Text("out of cheese".to_string()));
    assert_eq!(capture.release(), Dispatch::Message("out of cheese".to_string()));
}

#[test]
fn a_capture_is_released_once() {
    let object = thrown_object();
    let mut capture = ThrownException::from_value(ThrownValue::Exception(object.clone()));
    assert_eq!(capture.release(), Dispatch::Rethrow(object));
    assert_eq!(capture.release(), Dispatch::Message(String::new()));
    assert_eq!(capture.release(), Dispatch::Message(String::new()));
    assert_eq!(capture, ThrownException::default());

    let mut text: ThrownException<Reference> = ThrownException::String("once".to_string());
    assert_eq!(text.release(), Dispatch::Message("once".to_string()));
    assert_eq!(text.release(), Dispatch::Message(String::new()));
}

#[test]
fn wrap_tags_the_carrier_as_of_no_kind() {
    let capture: ThrownException<Reference> = ThrownException::String("x".to_string());
    let carrier = IoError::wrap(capture);
    assert_eq!(carrier.kind, IoErrorKind::Other);
    assert_eq!(carrier.payload, Some(ThrownException::String("x".to_string())));
}

#[test]
fn a_thrown_object_comes_back_unchanged() {
    for registry in registries() {
        let object = thrown_object();
        let capture = ThrownException::from_value(ThrownValue::Exception(object.clone()));
        let carrier = IoError::wrap(capture);
        let outcome: Outcome =
            carrier.throw("callback failed".to_string(), &registry, "SessionStore_load");
        let raised: Raised<u64, Reference> = outcome.unwrap_err().settle(None);
        match raised {
            Raised::Rethrown(reference) => {
                assert!(Rc::ptr_eq(&reference, &object));
                assert_eq!(*reference, *thrown_object());
            }
            other => panic!("unexpected exception {:?}", other),
        }
    }
}

#[test]
fn a_thrown_string_comes_back_as_a_message() {
    for registry in registries() {
        let capture: ThrownException<Reference> =
            ThrownException::from_value(ThrownValue::Text("out of cheese".to_string()));
        let outcome: Outcome = IoError::wrap(capture).throw(
            "callback failed".to_string(),
            &registry,
            "SessionStore_load",
        );
        assert_eq!(outcome, Err(Dispatch::Message("out of cheese".to_string())));
        let raised: Raised<u64, Reference> = outcome.unwrap_err().settle(Some(5));
        assert_eq!(raised, Raised::Message("out of cheese".to_string()));
    }
}

#[test]
fn an_io_error_without_a_capture_is_thrown_with_its_own_message() {
    for registry in registries() {
        for kind in [IoErrorKind::Other, IoErrorKind::Specific] {
            let error: IoError<Reference> = IoError::plain(kind);
            let outcome: Outcome =
                error.throw("unexpected end of file".to_string(), &registry, "InputStream_read");
            assert_eq!(outcome, Err(Dispatch::Message("unexpected end of file".to_string())));
        }
    }
}

#[test]
fn a_capture_under_a_specific_kind_is_not_released() {
    for registry in registries() {
        let error = IoError {
            kind: IoErrorKind::Specific,
            payload: Some(ThrownException::Error(thrown_object())),
        };
        let outcome: Outcome =
            error.throw("permission denied".to_string(), &registry, "InputStream_read");
        assert_eq!(outcome, Err(Dispatch::Message("permission denied".to_string())));
    }
}

#[test]
fn callback_error_keeps_its_message() {
    let error = CallbackError::new("store is closed".to_string());
    assert_eq!(error.message(), "store is closed");
    assert_eq!(error.description(), "callback error store is closed");
    assert_eq!(CallbackError::new(String::new()).description(), "callback error ");
}

#[test]
fn js_error_to_rust_names_the_callback() {
    let error = js_error_to_rust("loadSession", "store is closed".to_string());
    assert_eq!(
        error,
        SignalProtocolError::ApplicationCallbackError(
            "loadSession",
            CallbackError::new("store is closed".to_string())
        )
    );
    match error {
        SignalProtocolError::ApplicationCallbackError(func, cause) => {
            assert_eq!(func, "loadSession");
            assert_eq!(cause.message(), "store is closed");
        }
        other => panic!("unexpected error {:?}", other),
    }
}

#[test]
fn a_string_slice_converts_into_a_capture() {
    let capture: ThrownException<Reference> = ThrownException::from("out of cheese");
    assert_eq!(capture, ThrownException::String("out of cheese".to_string()));
    let capture: ThrownException<Reference> = "".into();
    assert_eq!(capture, ThrownException::default());
}
