use modular::callback::{
    callback_error_from_native, CallbackData, CallbackError, CallbackSuccess, NativeCallback,
};

#[test]
fn callback_records_first_success() {
    let mut cb = NativeCallback::new();
    assert!(cb.delivered().is_none());
    cb.fire_success(CallbackSuccess { data: Some(b"hello".to_vec()) });
    match cb.delivered() {
        Some(CallbackData::Success(s)) => assert_eq!(s.data.as_deref(), Some(&b"hello"[..])),
        other => panic!("unexpected outcome: {:?}", other),
    }
}

#[test]
fn callback_discards_second_event() {
    let mut cb = NativeCallback::new();
    cb.fire_success(CallbackSuccess { data: Some(b"first".to_vec()) });
    cb.fire_error(CallbackError {
        code: -5,
        err_name: None,
        description: None,
        data: None,
    });
    cb.fire_success(CallbackSuccess { data: Some(b"third".to_vec()) });
    match cb.take() {
        Some(CallbackData::Success(s)) => assert_eq!(s.data.as_deref(), Some(&b"first"[..])),
        other => panic!("unexpected outcome: {:?}", other),
    }
}

#[test]
fn callback_records_first_error() {
    let mut cb = NativeCallback::new();
    cb.fire_error(CallbackError {
        code: -7,
        err_name: Some("Boom".to_string()),
        description: Some("went boom".to_string()),
        data: Some(b"d".to_vec()),
    });
    match cb.take() {
        Some(CallbackData::Error(e)) => {
            assert_eq!(e.code, -7);
            assert_eq!(e.err_name.as_deref(), Some("Boom"));
            assert_eq!(e.description.as_deref(), Some("went boom"));
            assert_eq!(e.data.as_deref(), Some(&b"d"[..]));
        }
        other => panic!("unexpected outcome: {:?}", other),
    }
}

#[test]
fn error_from_native_decodes_utf8() {
    let e = callback_error_from_native(
        -2,
        Some(b"SomeError".to_vec()),
        Some(b"something failed".to_vec()),
        Some(b"payload".to_vec()),
    );
    assert_eq!(e.code, -2);
    assert_eq!(e.err_name.as_deref(), Some("SomeError"));
    assert_eq!(e.description.as_deref(), Some("something failed"));
    assert_eq!(e.data.as_deref(), Some(&b"payload"[..]));
}

#[test]
fn error_from_native_substitutes_invalid_utf8() {
    let e = callback_error_from_native(
        1,
        Some(vec![0xff, 0xfe]),
        Some(vec![0xc0, 0x00]),
        None,
    );
    assert_eq!(e.err_name.as_deref(), Some("UNKNOWN_ERROR_INVALID_UTF8"));
    assert_eq!(e.description.as_deref(), Some("empty description (invalid format)"));
    assert_eq!(e.data, None);
}

#[test]
fn error_from_native_keeps_absent_ranges() {
    let e = callback_error_from_native(0, None, None, None);
    assert_eq!(e.err_name, None);
    assert_eq!(e.description, None);
    assert_eq!(e.data, None);
}
