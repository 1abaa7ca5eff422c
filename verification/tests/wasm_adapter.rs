use modular::callback::{CallbackData, CallbackError, CallbackSuccess, NativeCallback};
use modular::module::NativeModule;
use modular::registry::Modular;
use modular::state::WasmModuleState;
use modular::wasm::{
    callback_id_bytes, decode_identity, guest_delivery, on_err_fn, on_success_fn,
    read_callback_id, read_identity_cells, read_slice_struct, registry_invoke,
    slice_struct_bytes, GuestAction, GuestDelivery, WasmInvoke, WasmInvokePhase,
    WASM_INVOKE_ERROR_CODE, WASM_MEM_ERROR_CODE,
};

#[test]
fn slice_struct_layout_exact() {
    let bytes = slice_struct_bytes(0x11223344, 5);
    assert_eq!(bytes, vec![0x44, 0x33, 0x22, 0x11, 5, 0, 0, 0]);
    assert_eq!(read_slice_struct(&bytes), Some((0x11223344, 5)));
}

#[test]
fn slice_struct_rejects_wrong_length() {
    assert_eq!(read_slice_struct(&vec![1, 2, 3]), None);
    assert_eq!(read_slice_struct(&vec![0; 9]), None);
}

#[test]
fn callback_id_layout_exact() {
    let bytes = callback_id_bytes(1);
    assert_eq!(bytes, vec![1, 0, 0, 0, 0, 0, 0, 0, 0, 0, 0, 0, 0, 0, 0, 0]);
    assert_eq!(read_callback_id(&bytes), Some(1));

    let id: u128 = 0x0102030405060708090a0b0c0d0e0f10;
    let bytes = callback_id_bytes(id);
    assert_eq!(bytes.len(), 16);
    assert_eq!(read_callback_id(&bytes), Some(id));
}

#[test]
fn callback_id_rejects_wrong_length() {
    assert_eq!(read_callback_id(&vec![0; 15]), None);
    assert_eq!(read_callback_id(&vec![0; 17]), None);
}

#[test]
fn identity_cells_decode_little_endian() {
    let ptr_cell = vec![0x10, 0x00, 0x00, 0x00];
    let len_cell = vec![0x03, 0x00, 0x00, 0x00];
    assert_eq!(read_identity_cells(&ptr_cell, &len_cell), Some((0x10, 3)));
    assert_eq!(read_identity_cells(&vec![0; 3], &len_cell), None);
}

#[test]
fn identity_decodes_only_utf8() {
    assert_eq!(decode_identity(b"wasm.module".to_vec()).as_deref(), Some("wasm.module"));
    assert_eq!(decode_identity(vec![0xff, 0xfe]), None);
}

#[test]
fn wasm_invoke_full_round_trip() {
    // A guest whose invoke immediately answers with b"ok": the machine walks
    // the whole marshalling path and frees everything it allocated.
    let mut pending = WasmModuleState::new();
    let (mut invoke, action) = WasmInvoke::begin(1, &"m".to_string(), None);
    match action {
        GuestAction::CreateSlice { bytes: Some(b) } => assert_eq!(b, b"m".to_vec()),
        other => panic!("unexpected action: {:?}", action_name(&other)),
    }

    let mut cb_owner = NativeCallback::new();
    // Guest allocated the method slice at 100.
    let action = invoke.slice_created(Ok(100), &mut cb_owner);
    assert!(matches!(action, GuestAction::CreateSlice { bytes: None }));
    // Guest allocated the (absent) data slice at 200.
    let action = invoke.slice_created(Ok(200), &mut cb_owner);
    match action {
        GuestAction::WriteBytes { bytes } => assert_eq!(bytes, callback_id_bytes(invoke.id)),
        other => panic!("unexpected action: {:?}", action_name(&other)),
    }
    // Guest stored the identifier at 300; the callback is parked.
    let (action, leftover) = invoke.id_written(Ok(300), cb_owner, &mut pending);
    assert!(leftover.is_none());
    assert!(matches!(
        action,
        GuestAction::CallInvoke { instance: 1, method_ptr: 100, data_ptr: 200, id_ptr: 300 }
    ));

    // During the invoke the guest delivers success with b"ok".
    on_success_fn(&mut pending, invoke.id, Some(b"ok".to_vec()));

    // The invoke export returns; the callback comes back with its outcome.
    let (action, cb) = invoke.invoked(Ok(()), &mut pending);
    assert!(matches!(action, GuestAction::FreeSlice { ptr: 100 }));
    let cb = cb.expect("callback handed back");
    match cb.take() {
        Some(CallbackData::Success(s)) => assert_eq!(s.data.as_deref(), Some(&b"ok"[..])),
        other => panic!("unexpected outcome: {:?}", other),
    }

    // All three allocations are released, in order.
    let action = invoke.freed_method();
    assert!(matches!(action, GuestAction::FreeSlice { ptr: 200 }));
    let action = invoke.freed_data();
    assert!(matches!(action, GuestAction::FreeBytes { ptr: 300, len: 16 }));
    let action = invoke.freed_id();
    assert!(matches!(action, GuestAction::Report));
    assert!(matches!(invoke.phase, WasmInvokePhase::Done { completed: true }));
}

#[test]
fn wasm_invoke_memory_failure_fires_mem_error() {
    let (mut invoke, _) = WasmInvoke::begin(1, &"m".to_string(), Some(b"d".to_vec()));
    let mut cb = NativeCallback::new();
    let action = invoke.slice_created(Err("out of guest memory".to_string()), &mut cb);
    assert!(matches!(action, GuestAction::Report));
    match cb.take() {
        Some(CallbackData::Error(e)) => {
            assert_eq!(e.code, WASM_MEM_ERROR_CODE);
            assert_eq!(e.code, -10000);
            assert_eq!(e.err_name.as_deref(), Some("WasmMemError"));
            assert_eq!(e.description.as_deref(), Some("out of guest memory"));
        }
        other => panic!("unexpected outcome: {:?}", other),
    }
    assert!(matches!(invoke.phase, WasmInvokePhase::Done { completed: false }));
}

#[test]
fn wasm_invoke_guest_trap_fires_invoke_error() {
    let mut pending = WasmModuleState::new();
    let (mut invoke, _) = WasmInvoke::begin(2, &"m".to_string(), None);
    let mut cb_owner = NativeCallback::new();
    invoke.slice_created(Ok(10), &mut cb_owner);
    invoke.slice_created(Ok(20), &mut cb_owner);
    let (_, leftover) = invoke.id_written(Ok(30), cb_owner, &mut pending);
    assert!(leftover.is_none());

    // The guest traps without delivering anything.
    let (action, cb) = invoke.invoked(Err("unreachable executed".to_string()), &mut pending);
    assert!(matches!(action, GuestAction::FreeSlice { ptr: 10 }));
    match cb.expect("callback handed back").take() {
        Some(CallbackData::Error(e)) => {
            assert_eq!(e.code, WASM_INVOKE_ERROR_CODE);
            assert_eq!(e.code, -10001);
            assert_eq!(e.err_name.as_deref(), Some("WasmInvokeError"));
            assert_eq!(e.description.as_deref(), Some("unreachable executed"));
        }
        other => panic!("unexpected outcome: {:?}", other),
    }
}

#[test]
fn late_or_unknown_delivery_is_ignored() {
    let mut pending = WasmModuleState::new();
    // No entry under this identifier: nothing happens.
    on_success_fn(&mut pending, 77, Some(b"x".to_vec()));
    on_err_fn(&mut pending, 77, -1, None, None, None);

    // A parked callback keeps only its first event.
    pending.add_callback(5, NativeCallback::new());
    on_success_fn(&mut pending, 5, Some(b"first".to_vec()));
    on_err_fn(&mut pending, 5, -9, None, None, None);
    let cb = pending.remove_callback(5).expect("still parked");
    match cb.take() {
        Some(CallbackData::Success(s)) => assert_eq!(s.data.as_deref(), Some(&b"first"[..])),
        other => panic!("unexpected outcome: {:?}", other),
    }
}

#[test]
fn guest_registry_invoke_rejects_bad_arguments() {
    let r = registry_invoke(None, Some(b"m".to_vec()), None);
    let (delivery, code) = r.expect_err("absent package refused");
    assert_eq!(code, -1);
    match delivery {
        GuestDelivery::OnError { code, err_name, description, data } => {
            assert_eq!(code, -1);
            assert_eq!(err_name.as_deref(), Some("InvalidArguments"));
            assert_eq!(description.as_deref(), Some("Invalid package or method name"));
            assert_eq!(data, None);
        }
        GuestDelivery::OnSuccess { .. } => panic!("expected an error delivery"),
    }

    let r = registry_invoke(Some(vec![0xff]), Some(b"m".to_vec()), None);
    assert!(r.is_err());
}

#[test]
fn guest_initiated_host_call_round_trip() {
    // The guest asks for invoke("a", "m", None); module A answers b"x"; the
    // guest receives exactly that delivery, and destroy follows.
    let mut registry = Modular::new();
    registry.register_module(NativeModule::new("a".to_string(), "1.0".to_string(), true, 4));

    let inv = registry_invoke(Some(b"a".to_vec()), Some(b"m".to_vec()), None)
        .expect("arguments decode");
    assert_eq!(inv.package, "a");
    assert_eq!(inv.method, "m");

    let mut bridge = NativeCallback::new();
    let ctx = registry.invoke(&inv.package, &inv.method, inv.data, &mut bridge).unwrap();
    assert_eq!(ctx.instance, 4);
    bridge.fire_success(CallbackSuccess { data: Some(b"x".to_vec()) });

    let outcome = bridge.take().expect("exactly one terminal event");
    match guest_delivery(outcome) {
        GuestDelivery::OnSuccess { data } => assert_eq!(data.as_deref(), Some(&b"x"[..])),
        GuestDelivery::OnError { .. } => panic!("expected a success delivery"),
    }
}

#[test]
fn guest_delivery_maps_errors_exactly() {
    let outcome = CallbackData::Error(CallbackError {
        code: -42,
        err_name: Some("E".to_string()),
        description: Some("d".to_string()),
        data: Some(b"p".to_vec()),
    });
    match guest_delivery(outcome) {
        GuestDelivery::OnError { code, err_name, description, data } => {
            assert_eq!(code, -42);
            assert_eq!(err_name.as_deref(), Some("E"));
            assert_eq!(description.as_deref(), Some("d"));
            assert_eq!(data.as_deref(), Some(&b"p"[..]));
        }
        GuestDelivery::OnSuccess { .. } => panic!("expected an error delivery"),
    }
}

fn action_name(a: &GuestAction) -> &'static str {
    match a {
        GuestAction::CreateSlice { .. } => "CreateSlice",
        GuestAction::WriteBytes { .. } => "WriteBytes",
        GuestAction::CallInvoke { .. } => "CallInvoke",
        GuestAction::FreeSlice { .. } => "FreeSlice",
        GuestAction::FreeBytes { .. } => "FreeBytes",
        GuestAction::Report => "Report",
    }
}
