use modular::abi::NativeByteSlice;
use modular::callback::NativeCallbackSuccess;

#[test]
fn byte_slice_round_trip_present() {
    let buf = [1u8, 2, 3];
    let addr = buf.as_ptr() as usize;
    let s = NativeByteSlice::from_parts(addr, 3);
    assert_eq!(s.to_option(), Some((addr, 3)));
    assert!(!s.is_null());
}

#[test]
fn byte_slice_empty_but_present() {
    let s = NativeByteSlice::from_parts(0x1000, 0);
    assert_eq!(s.to_option(), Some((0x1000, 0)));
}

#[test]
fn byte_slice_default_is_absent() {
    let s = NativeByteSlice::default();
    assert_eq!(s.ptr, 0);
    assert_eq!(s.len, 0);
    assert_eq!(s.to_option(), None);
    assert!(s.is_null());
}

#[test]
fn byte_slice_from_option_absent() {
    let s = NativeByteSlice::from_option(None);
    assert_eq!(s.to_option(), None);
}

#[test]
fn native_callback_success_payload_range() {
    let s = NativeCallbackSuccess::from_range(Some((0x2000, 7)));
    assert_eq!(s.to_range(), Some((0x2000, 7)));
    let none = NativeCallbackSuccess::from_range(None);
    assert_eq!(none.to_range(), None);
}
