use modular::callback::{CallbackData, NativeCallback};
use modular::ffi::{
    get_chain_items, registry_invoke, NativeMutPtr, NativeRegistry, NativeRegistryInvocationData,
};
use modular::module::NativeModule;
use modular::registry::Modular;

fn data(
    module: Option<&[u8]>,
    method: Option<&[u8]>,
    payload: Option<&[u8]>,
) -> NativeRegistryInvocationData {
    NativeRegistryInvocationData {
        module: module.map(|b| b.to_vec()),
        method: method.map(|b| b.to_vec()),
        data: payload.map(|b| b.to_vec()),
        callback_vtable: NativeCallback::new(),
    }
}

#[test]
fn registry_invoke_rejects_null_module() {
    let mut registry = Modular::new();
    let (code, ctx, cb) = registry_invoke(&mut registry, data(None, Some(b"m"), None));
    assert_eq!(code, -1);
    assert!(ctx.is_none());
    assert!(cb.delivered().is_none());
}

#[test]
fn registry_invoke_rejects_invalid_module_utf8() {
    let mut registry = Modular::new();
    let (code, ctx, _cb) = registry_invoke(&mut registry, data(Some(&[0xff]), Some(b"m"), None));
    assert_eq!(code, -1);
    assert!(ctx.is_none());
}

#[test]
fn registry_invoke_rejects_invalid_method_utf8() {
    let mut registry = Modular::new();
    let (code, ctx, _cb) = registry_invoke(&mut registry, data(Some(b"a"), Some(&[0xff]), None));
    assert_eq!(code, -2);
    assert!(ctx.is_none());
}

#[test]
fn registry_invoke_unknown_module_answers_callback() {
    let mut registry = Modular::new();
    let (code, ctx, cb) = registry_invoke(&mut registry, data(Some(b"ghost"), Some(b"m"), None));
    assert_eq!(code, 1);
    assert!(ctx.is_none());
    match cb.take() {
        Some(CallbackData::Error(e)) => assert_eq!(e.code, i32::MIN + 1),
        other => panic!("unexpected outcome: {:?}", other),
    }
}

#[test]
fn registry_invoke_dispatches_to_known_module() {
    let mut registry = Modular::new();
    registry.register_module(NativeModule::new("a".to_string(), "1.0".to_string(), true, 9));
    let (code, ctx, cb) =
        registry_invoke(&mut registry, data(Some(b"a"), Some(b"go"), Some(b"xyz")));
    assert_eq!(code, 0);
    let ctx = ctx.expect("dispatch context");
    assert_eq!(ctx.instance, 9);
    assert_eq!(ctx.method, "go");
    assert_eq!(ctx.data.as_deref(), Some(&b"xyz"[..]));
    assert!(cb.delivered().is_none());
}

#[test]
fn chain_items_skip_null_and_invalid() {
    let items: Vec<Option<Vec<u8>>> = vec![
        Some(b"root:run".to_vec()),
        None,
        Some(vec![0xff, 0xfe]),
        Some(b"a:ping".to_vec()),
    ];
    let decoded = get_chain_items(&items);
    assert_eq!(decoded, vec!["root:run".to_string(), "a:ping".to_string()]);
}

#[test]
fn chain_items_empty() {
    let items: Vec<Option<Vec<u8>>> = Vec::new();
    assert!(get_chain_items(&items).is_empty());
}

#[test]
fn native_registry_forwards_operations() {
    let mut native = NativeRegistry::new(Modular::new());
    native.register_module(NativeModule::new("a".to_string(), "1.0".to_string(), true, 3));

    let mut cb = NativeCallback::new();
    let ctx = native
        .invoke(Some(b"a".to_vec()), Some(b"m".to_vec()), None, &mut cb)
        .expect("module a registered");
    assert_eq!(ctx.instance, 3);

    let removed = native.deregister_module(Some(b"a".to_vec()));
    assert!(removed.is_some());
    let removed_again = native.deregister_module(Some(b"a".to_vec()));
    assert!(removed_again.is_none());
}

#[test]
fn native_registry_run_guard() {
    let mut native = NativeRegistry::new(Modular::new());
    assert!(native.run().is_ok());
    assert!(native.run().is_err());
}

#[test]
fn native_mut_ptr_null_check() {
    let p: NativeMutPtr<u32> = NativeMutPtr(Some(5));
    assert_eq!(p.as_ref(), Some(&5));
    let null: NativeMutPtr<u32> = NativeMutPtr(None);
    assert_eq!(null.as_ref(), None);
}
