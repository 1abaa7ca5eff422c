use modular::callback::{CallbackData, CallbackSuccess, NativeCallback};
use modular::errors::Error;
use modular::module::NativeModule;
use modular::registry::Modular;

fn module(package: &str, version: &str, instance: u64) -> NativeModule {
    NativeModule::new(package.to_string(), version.to_string(), true, instance)
}

#[test]
fn simple_dispatch_echoes_input() {
    // Module A answers an invocation by echoing its input on the callback.
    let mut registry = Modular::new();
    registry.register_module(module("a", "1.0", 7));

    let mut cb = NativeCallback::new();
    let ctx = registry
        .invoke(&"a".to_string(), &"m".to_string(), Some(b"hello".to_vec()), &mut cb)
        .expect("module a is registered");
    assert_eq!(ctx.instance, 7);
    assert_eq!(ctx.method, "m");
    assert_eq!(ctx.data.as_deref(), Some(&b"hello"[..]));
    assert!(cb.delivered().is_none());

    // The module's invoke fires the callback once, echoing the data.
    cb.fire_success(CallbackSuccess { data: ctx.data.clone() });
    // Any further terminal event is discarded.
    cb.fire_success(CallbackSuccess { data: Some(b"again".to_vec()) });
    match cb.take() {
        Some(CallbackData::Success(s)) => assert_eq!(s.data.as_deref(), Some(&b"hello"[..])),
        other => panic!("unexpected outcome: {:?}", other),
    }
}

#[test]
fn missing_module_synthesizes_not_found() {
    let mut registry = Modular::new();
    let mut cb = NativeCallback::new();
    let ctx = registry.invoke(&"nope".to_string(), &"m".to_string(), None, &mut cb);
    assert!(ctx.is_none());
    match cb.take() {
        Some(CallbackData::Error(e)) => {
            assert_eq!(e.code, i32::MIN + 1);
            assert_eq!(e.code, Error::ModuleNotFound.code());
            assert_eq!(e.err_name.as_deref(), Some("Module not found"));
            assert_eq!(e.description.as_deref(), Some("Module \"nope\" not found"));
            assert_eq!(e.data, None);
        }
        other => panic!("unexpected outcome: {:?}", other),
    }
}

#[test]
fn double_run_guard() {
    let mut registry = Modular::new();
    registry.register_module(module("a", "1.0", 1));
    registry.register_module(module("b", "1.0", 2));

    let first = registry.run().expect("first run starts");
    assert_eq!(first.len(), 2);

    // Re-entry while the first run is underway fails with the exact error.
    let second = registry.run();
    assert_eq!(second.unwrap_err(), Error::RegistryAlreadyRunning);
    assert_eq!(Error::RegistryAlreadyRunning.code(), i32::MIN);

    // After the first run completes, a run is accepted again.
    registry.run_finished();
    assert!(registry.run().is_ok());
}

#[test]
fn run_snapshots_current_modules() {
    let mut registry = Modular::new();
    registry.register_module(module("a", "1.0", 11));
    let handles = registry.run().unwrap();
    assert_eq!(handles, vec![11]);
    // A module registered after run() is not part of that run.
    registry.register_module(module("b", "1.0", 22));
    assert_eq!(handles.len(), 1);
    registry.run_finished();
    let handles = registry.run().unwrap();
    assert_eq!(handles.len(), 2);
}

#[test]
fn register_replaces_same_package() {
    let mut registry = Modular::new();
    assert!(registry.register_module(module("a", "1.0", 1)).is_none());
    let prior = registry.register_module(module("a", "2.0", 2)).expect("prior entry handed back");
    assert_eq!(prior.module.version(), "1.0");
    assert_eq!(prior.module.instance, 1);

    let mut cb = NativeCallback::new();
    let ctx = registry.invoke(&"a".to_string(), &"m".to_string(), None, &mut cb).unwrap();
    assert_eq!(ctx.instance, 2);
}

#[test]
fn deregister_removes_and_absent_is_noop() {
    let mut registry = Modular::new();
    registry.register_module(module("a", "1.0", 1));
    let removed = registry.deregister_module(&"a".to_string()).expect("entry removed");
    assert_eq!(removed.module.package(), "a");
    assert!(registry.deregister_module(&"a".to_string()).is_none());
    assert!(registry.deregister_module(&"ghost".to_string()).is_none());
}

#[test]
fn cross_module_chain() {
    // A's run issues invoke("b", "ping"); B answers with "pong".
    let mut registry = Modular::new();
    registry.register_module(module("a", "1.0", 1));
    registry.register_module(module("b", "1.0", 2));

    let mut cb = NativeCallback::new();
    let ctx = registry
        .invoke(&"b".to_string(), &"ping".to_string(), None, &mut cb)
        .expect("module b is registered");
    assert_eq!(ctx.instance, 2);
    // The callee sees the chain by which control reached it.
    assert_eq!(ctx.call_chain, vec!["b".to_string(), "b:ping".to_string()]);

    cb.fire_success(CallbackSuccess { data: Some(b"pong".to_vec()) });
    match cb.take() {
        Some(CallbackData::Success(s)) => assert_eq!(s.data.as_deref(), Some(&b"pong"[..])),
        other => panic!("unexpected outcome: {:?}", other),
    }
}

#[test]
fn call_chain_accessors() {
    let registry = Modular::new();
    assert!(registry.call_chain().is_empty());
    assert!(registry.root_caller().is_none());
}

#[test]
fn destroy_waits_for_in_flight_invocations() {
    let mut registry = Modular::new();
    registry.register_module(module("a", "1.0", 1));

    let mut cb = NativeCallback::new();
    registry.invoke(&"a".to_string(), &"m".to_string(), None, &mut cb).unwrap();

    // Deregistration hands the entry back with its invocation still live.
    let mut entry = registry.deregister_module(&"a".to_string()).unwrap();
    assert_eq!(entry.in_flight, 1);
    assert!(!entry.destroyed);

    // The invocation delivers its terminal event; only then may destroy run.
    cb.fire_success(CallbackSuccess { data: None });
    entry.invocation_done();
    assert_eq!(entry.in_flight, 0);
    entry.destroy();
    assert!(entry.destroyed);
}

#[test]
fn invocation_done_decrements_registered_module() {
    let mut registry = Modular::new();
    registry.register_module(module("a", "1.0", 1));
    let mut cb = NativeCallback::new();
    registry.invoke(&"a".to_string(), &"m".to_string(), None, &mut cb).unwrap();
    registry.invocation_done(&"a".to_string());
    let entry = registry.deregister_module(&"a".to_string()).unwrap();
    assert_eq!(entry.in_flight, 0);
}
