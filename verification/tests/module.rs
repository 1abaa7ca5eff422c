use modular::callback::{CallbackData, NativeCallback};
use modular::errors::Error;
use modular::module::NativeModule;

#[test]
fn module_identity_is_stable() {
    let m = NativeModule::new("dll.module1".to_string(), "1.0.0".to_string(), true, 42);
    assert_eq!(m.package(), "dll.module1");
    assert_eq!(m.version(), "1.0.0");
    assert_eq!(m.package(), "dll.module1");
    assert_eq!(m.instance, 42);
}

#[test]
fn run_result_maps_status() {
    let m = NativeModule::new("p".to_string(), "v".to_string(), true, 0);
    assert!(m.run_result(0).is_ok());
    let err = m.run_result(17).unwrap_err();
    assert_eq!(err.code, 17);
    assert_eq!(err.message, "native run failed");
}

#[test]
fn run_result_without_run_entry_is_ok() {
    let m = NativeModule::new("p".to_string(), "v".to_string(), false, 0);
    assert!(m.run_result(123).is_ok());
}

#[test]
fn invoke_fn_decodes_valid_method() {
    let mut cb = NativeCallback::new();
    let method = NativeModule::invoke_fn(Some(b"do_thing".to_vec()), &mut cb);
    assert_eq!(method.as_deref(), Some("do_thing"));
    assert!(cb.delivered().is_none());
}

#[test]
fn invoke_fn_rejects_invalid_utf8_method() {
    let mut cb = NativeCallback::new();
    let method = NativeModule::invoke_fn(Some(vec![0xff, 0x00, 0x41]), &mut cb);
    assert!(method.is_none());
    match cb.take() {
        Some(CallbackData::Error(e)) => {
            assert_eq!(e.code, Error::FfiInvalidMethodName.code());
            assert_eq!(e.code, i32::MIN + 2);
            assert_eq!(e.err_name.as_deref(), Some("Invalid method name"));
            assert_eq!(
                e.description.as_deref(),
                Some("empty or non-valid (not utf8) method name")
            );
            assert_eq!(e.data, None);
        }
        other => panic!("unexpected outcome: {:?}", other),
    }
}

#[test]
fn invoke_fn_rejects_absent_method() {
    let mut cb = NativeCallback::new();
    let method = NativeModule::invoke_fn(None, &mut cb);
    assert!(method.is_none());
    match cb.take() {
        Some(CallbackData::Error(e)) => {
            assert_eq!(e.code, Error::FfiInvalidMethodName.code());
        }
        other => panic!("unexpected outcome: {:?}", other),
    }
}

#[test]
fn invoke_fn_accepts_present_empty_method() {
    // An empty but present method name is valid UTF-8 and passes through;
    // only an absent or undecodable one is refused.
    let mut cb = NativeCallback::new();
    let method = NativeModule::invoke_fn(Some(Vec::new()), &mut cb);
    assert_eq!(method.as_deref(), Some(""));
    assert!(cb.delivered().is_none());
}

#[test]
fn invoke_fn_keeps_valid_utf8_intact() {
    let mut cb = NativeCallback::new();
    let name = "caf\u{e9}:metho\u{2764}";
    let method = NativeModule::invoke_fn(Some(name.as_bytes().to_vec()), &mut cb);
    assert_eq!(method.as_deref(), Some(name));
}
