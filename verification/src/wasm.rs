//! The WASM adapter core: marshalling through a guest's linear memory and the
//! host → guest invocation protocol.
//!
//! A byte-slice in guest memory is an 8-byte struct `{ offset: u32, len: u32 }`,
//! both fields little-endian; a callback identifier is a 128-bit value written
//! as 16 little-endian bytes. A host → guest invocation allocates guest
//! slices for method and data, writes a fresh identifier, parks the host
//! callback under it, enters the guest's `invoke`, and frees everything it
//! allocated; failures along the way synthesize `WasmMemError` or
//! `WasmInvokeError` on the callback. The guest calls that perform each step
//! live outside this crate; [`WasmInvoke`] makes every decision between them.

use vstd::prelude::*;
use vstd::bytes::{
    lemma_auto_spec_u128_to_from_le_bytes, lemma_auto_spec_u32_to_from_le_bytes,
    spec_u128_from_le_bytes, spec_u128_to_le_bytes, spec_u32_from_le_bytes, spec_u32_to_le_bytes,
    u128_from_le_bytes, u128_to_le_bytes, u32_from_le_bytes, u32_to_le_bytes,
};
use vstd::slice::slice_subrange;
use vstd::utf8::{decode_utf8, encode_utf8, valid_utf8};
use crate::abi::bytes_to_string;
use crate::callback::{CallbackData, CallbackError, CallbackSuccess, NativeCallback};
use crate::state::WasmModuleState;

verus! {

/// The code of the callback error synthesized when guest memory cannot be
/// allocated or written.
pub const WASM_MEM_ERROR_CODE: i32 = -10000;

/// The code of the callback error synthesized when the guest traps or its
/// `invoke` export fails.
pub const WASM_INVOKE_ERROR_CODE: i32 = -10001;

/// Relies on `uuid::Uuid::new_v4` and `uuid::Uuid::as_u128`: a freshly
/// generated random 128-bit identifier. Nothing is promised of the value;
/// collision resistance is statistical only.
#[verifier::external_body]
fn fresh_callback_id() -> u128 {
    uuid::Uuid::new_v4().as_u128()
}

/// The 8-byte guest representation of a byte-slice: the offset and the
/// length, each as 4 little-endian bytes.
pub open spec fn spec_slice_struct(offset: u32, len: u32) -> Seq<u8> {
    spec_u32_to_le_bytes(offset) + spec_u32_to_le_bytes(len)
}

/// What an 8-byte buffer read back from guest memory denotes; anything of
/// another length is no slice struct.
pub open spec fn spec_read_slice_struct(b: Seq<u8>) -> Option<(u32, u32)> {
    if b.len() == 8 {
        Some((spec_u32_from_le_bytes(b.subrange(0, 4)), spec_u32_from_le_bytes(b.subrange(4, 8))))
    } else {
        None
    }
}

/// Encodes a slice struct for writing into guest memory.
pub fn slice_struct_bytes(offset: u32, len: u32) -> (r: Vec<u8>)
    ensures
        r@ == spec_slice_struct(offset, len),
        r@.len() == 8,
{
    let mut v = u32_to_le_bytes(offset);
    let mut w = u32_to_le_bytes(len);
    v.append(&mut w);
    v
}

/// Decodes a slice struct read back from guest memory; a buffer of any other
/// length is rejected.
pub fn read_slice_struct(bytes: &Vec<u8>) -> (r: Option<(u32, u32)>)
    ensures
        r == spec_read_slice_struct(bytes@),
{
    if bytes.len() != 8 {
        return None;
    }
    let s = bytes.as_slice();
    let offset = u32_from_le_bytes(slice_subrange(s, 0, 4));
    let len = u32_from_le_bytes(slice_subrange(s, 4, 8));
    Some((offset, len))
}

/// A slice struct written into guest memory reads back as the offset and
/// length it was written with.
pub proof fn lemma_slice_struct_round_trip(offset: u32, len: u32)
    ensures
        spec_read_slice_struct(spec_slice_struct(offset, len)) == Some((offset, len)),
{
    lemma_auto_spec_u32_to_from_le_bytes();
    assert(spec_slice_struct(offset, len).subrange(0, 4) =~= spec_u32_to_le_bytes(offset));
    assert(spec_slice_struct(offset, len).subrange(4, 8) =~= spec_u32_to_le_bytes(len));
}

/// Encodes a callback identifier for writing into guest memory: 16
/// little-endian bytes.
pub fn callback_id_bytes(id: u128) -> (r: Vec<u8>)
    ensures
        r@ == spec_u128_to_le_bytes(id),
        r@.len() == 16,
{
    u128_to_le_bytes(id)
}

/// Reads a callback identifier back from the 16 bytes the guest points at;
/// a buffer of any other length is rejected.
pub fn read_callback_id(bytes: &Vec<u8>) -> (r: Option<u128>)
    ensures
        bytes@.len() == 16 ==> r == Some(spec_u128_from_le_bytes(bytes@)),
        bytes@.len() != 16 ==> r is None,
{
    if bytes.len() != 16 {
        return None;
    }
    Some(u128_from_le_bytes(bytes.as_slice()))
}

/// A callback identifier written into guest memory reads back as itself, so
/// the guest can refer to the parked callback.
pub proof fn lemma_callback_id_round_trip(id: u128)
    ensures
        spec_u128_from_le_bytes(spec_u128_to_le_bytes(id)) == id,
{
    lemma_auto_spec_u128_to_from_le_bytes();
    assert(spec_u128_to_le_bytes(id).len() == 16);
}

/// Reads back the two 4-byte cells a guest's identity export filled: the
/// pointer and the length of the string it wrote, each little-endian. Cells
/// of any other size are rejected.
pub fn read_identity_cells(ptr_cell: &Vec<u8>, len_cell: &Vec<u8>) -> (r: Option<(u32, u32)>)
    ensures
        ptr_cell@.len() == 4 && len_cell@.len() == 4 ==> r == Some(
            (spec_u32_from_le_bytes(ptr_cell@), spec_u32_from_le_bytes(len_cell@)),
        ),
        !(ptr_cell@.len() == 4 && len_cell@.len() == 4) ==> r is None,
{
    if ptr_cell.len() != 4 || len_cell.len() != 4 {
        return None;
    }
    Some((u32_from_le_bytes(ptr_cell.as_slice()), u32_from_le_bytes(len_cell.as_slice())))
}

/// The string a guest's identity export names, decoded: its bytes must be
/// valid UTF-8.
pub fn decode_identity(bytes: Vec<u8>) -> (r: Option<String>)
    ensures
        r is Some <==> valid_utf8(bytes@),
        r matches Some(s) ==> s@ == decode_utf8(bytes@),
{
    bytes_to_string(bytes)
}

/// The callback error synthesized when guest memory work fails:
/// `WasmMemError` with the failure's description.
pub open spec fn spec_wasm_mem_error(e: CallbackError, msg: Seq<char>) -> bool {
    &&& e.code == WASM_MEM_ERROR_CODE
    &&& e.err_name matches Some(n) && n@ == "WasmMemError"@
    &&& e.description matches Some(d) && d@ == msg
    &&& e.data is None
}

/// The callback error synthesized when the guest's `invoke` traps or fails:
/// `WasmInvokeError` with the failure's description.
pub open spec fn spec_wasm_invoke_error(e: CallbackError, msg: Seq<char>) -> bool {
    &&& e.code == WASM_INVOKE_ERROR_CODE
    &&& e.err_name matches Some(n) && n@ == "WasmInvokeError"@
    &&& e.description matches Some(d) && d@ == msg
    &&& e.data is None
}

/// A piece of guest work the adapter asks its shell to perform next.
pub enum GuestAction {
    /// Allocate a slice struct (and a buffer for the bytes, if present) in
    /// guest memory and report its pointer.
    CreateSlice { bytes: Option<Vec<u8>> },
    /// Write raw bytes into freshly allocated guest memory and report the
    /// pointer.
    WriteBytes { bytes: Vec<u8> },
    /// Enter the guest's `invoke` export with the marshalled pointers.
    CallInvoke { instance: i32, method_ptr: i32, data_ptr: i32, id_ptr: i32 },
    /// Release a slice struct and the buffer it points at.
    FreeSlice { ptr: i32 },
    /// Release raw bytes of the given length.
    FreeBytes { ptr: i32, len: u32 },
    /// Nothing further: the invocation is over.
    Report,
}

/// Where a host → guest invocation stands between two pieces of guest work.
pub enum WasmInvokePhase {
    /// Awaiting the pointer of the method's slice struct; the payload waits
    /// here until its own slice is next.
    MethodSlice { data: Option<Vec<u8>> },
    /// Awaiting the pointer of the payload's slice struct.
    DataSlice { method_ptr: i32 },
    /// Awaiting the pointer of the written callback identifier.
    IdWrite { method_ptr: i32, data_ptr: i32 },
    /// Awaiting the result of the guest's `invoke` export.
    Invoking { method_ptr: i32, data_ptr: i32, id_ptr: i32 },
    /// Releasing the method slice.
    FreeMethod { method_ptr: i32, data_ptr: i32, id_ptr: i32 },
    /// Releasing the payload slice.
    FreeData { data_ptr: i32, id_ptr: i32 },
    /// Releasing the identifier buffer.
    FreeId { id_ptr: i32 },
    /// Over. `completed` tells a full pass from a failure that stopped the
    /// marshalling early (which, as the shell does, leaks what was already
    /// allocated).
    Done { completed: bool },
}

/// One host → guest invocation: the guest instance handle, the fresh
/// identifier its callback is parked under, and the phase. The shell performs
/// each returned [`GuestAction`] and feeds the result back; every decision
/// in between is made here.
pub struct WasmInvoke {
    pub instance: i32,
    pub id: u128,
    pub phase: WasmInvokePhase,
}

impl WasmInvoke {
    /// Starts an invocation of `method` with payload `data` on the guest
    /// instance: a fresh random identifier is drawn for the callback, and
    /// the first guest work is allocating the method's slice, with the
    /// method's UTF-8 bytes.
    pub fn begin(instance: i32, method: &String, data: Option<Vec<u8>>) -> (r: (
        WasmInvoke,
        GuestAction,
    ))
        ensures
            r.0.instance == instance,
            r.0.phase matches WasmInvokePhase::MethodSlice { data: d } && d == data,
            r.1 matches GuestAction::CreateSlice { bytes: Some(b) } && b@ == encode_utf8(
                method@,
            ),
    {
        let id = fresh_callback_id();
        let method_bytes = method.as_str().as_bytes_vec();
        (
            WasmInvoke { instance, id, phase: WasmInvokePhase::MethodSlice { data } },
            GuestAction::CreateSlice { bytes: Some(method_bytes) },
        )
    }

    /// The guest reported on a slice allocation. A pointer moves the
    /// marshalling one slice further: after the method's slice comes the
    /// payload's, after the payload's the identifier is written. A failure
    /// fires `WasmMemError` on the host callback and ends the invocation.
    pub fn slice_created(&mut self, result: Result<i32, String>, callback: &mut NativeCallback)
        -> (a: GuestAction)
        requires
            old(self).phase matches WasmInvokePhase::MethodSlice { .. } || old(self).phase
                matches WasmInvokePhase::DataSlice { .. },
            old(callback).spec_armed(),
        ensures
            final(self).instance == old(self).instance,
            final(self).id == old(self).id,
            (match result {
                Ok(p) => {
                    &&& *final(callback) == *old(callback)
                    &&& (match old(self).phase {
                        WasmInvokePhase::MethodSlice { data } => {
                            &&& final(self).phase matches WasmInvokePhase::DataSlice {
                                method_ptr,
                            } && method_ptr == p
                            &&& a matches GuestAction::CreateSlice { bytes } && bytes == data
                        },
                        WasmInvokePhase::DataSlice { method_ptr } => {
                            &&& final(self).phase matches WasmInvokePhase::IdWrite {
                                method_ptr: m,
                                data_ptr,
                            } && m == method_ptr && data_ptr == p
                            &&& a matches GuestAction::WriteBytes { bytes } && bytes@
                                == spec_u128_to_le_bytes(old(self).id)
                        },
                        _ => false,
                    })
                },
                Err(msg) => {
                    &&& final(self).phase matches WasmInvokePhase::Done { completed } && !completed
                    &&& a is Report
                    &&& final(callback).spec_delivered() matches Some(CallbackData::Error(e))
                        && spec_wasm_mem_error(e, msg@)
                },
            }),
    {
        match result {
            Ok(p) => {
                let mut phase = WasmInvokePhase::Done { completed: false };
                core::mem::swap(&mut phase, &mut self.phase);
                match phase {
                    WasmInvokePhase::MethodSlice { data } => {
                        self.phase = WasmInvokePhase::DataSlice { method_ptr: p };
                        GuestAction::CreateSlice { bytes: data }
                    },
                    WasmInvokePhase::DataSlice { method_ptr } => {
                        self.phase = WasmInvokePhase::IdWrite { method_ptr, data_ptr: p };
                        GuestAction::WriteBytes { bytes: callback_id_bytes(self.id) }
                    },
                    _ => {
                        // unreachable by the precondition; keep the machine stopped
                        GuestAction::Report
                    },
                }
            },
            Err(msg) => {
                self.phase = WasmInvokePhase::Done { completed: false };
                callback.fire_error(
                    CallbackError {
                        code: WASM_MEM_ERROR_CODE,
                        err_name: Some(String::from_str("WasmMemError")),
                        description: Some(msg),
                        data: None,
                    },
                );
                GuestAction::Report
            },
        }
    }

    /// The guest reported on writing the identifier bytes. On success the
    /// host callback is parked in the pending table under the identifier and
    /// the guest's `invoke` is entered; on failure `WasmMemError` fires and
    /// the callback is handed back.
    pub fn id_written(
        &mut self,
        result: Result<i32, String>,
        callback: NativeCallback,
        pending: &mut WasmModuleState,
    ) -> (r: (GuestAction, Option<NativeCallback>))
        requires
            old(self).phase matches WasmInvokePhase::IdWrite { .. },
            old(pending).wf(),
            callback.spec_armed(),
        ensures
            final(self).instance == old(self).instance,
            final(self).id == old(self).id,
            final(pending).wf(),
            (match result {
                Ok(p) => {
                    &&& (old(self).phase matches WasmInvokePhase::IdWrite {
                        method_ptr,
                        data_ptr,
                    } && {
                        &&& final(self).phase matches WasmInvokePhase::Invoking {
                            method_ptr: m,
                            data_ptr: d,
                            id_ptr,
                        } && m == method_ptr && d == data_ptr && id_ptr == p
                        &&& r.0 matches GuestAction::CallInvoke {
                            instance,
                            method_ptr: am,
                            data_ptr: ad,
                            id_ptr: ai,
                        } && instance == old(self).instance && am == method_ptr && ad == data_ptr
                            && ai == p
                    })
                    &&& r.1 is None
                    &&& final(pending).spec_contains(old(self).id)
                    &&& final(pending).spec_at(old(self).id) == callback
                    &&& forall|q: u128|
                        q != old(self).id ==> (final(pending).spec_contains(q) <==> old(
                            pending,
                        ).spec_contains(q))
                    &&& forall|q: u128|
                        q != old(self).id && old(pending).spec_contains(q)
                            ==> final(pending).spec_at(q) == old(pending).spec_at(q)
                },
                Err(msg) => {
                    &&& final(self).phase matches WasmInvokePhase::Done { completed } && !completed
                    &&& r.0 is Report
                    &&& (r.1 matches Some(cb) && cb.spec_delivered() matches Some(
                        CallbackData::Error(e),
                    ) && spec_wasm_mem_error(e, msg@))
                    &&& *final(pending) == *old(pending)
                },
            }),
    {
        let (method_ptr, data_ptr) = match &self.phase {
            WasmInvokePhase::IdWrite { method_ptr, data_ptr } => (*method_ptr, *data_ptr),
            _ => (0, 0),  // unreachable by the precondition
        };
        match result {
            Ok(p) => {
                pending.add_callback(self.id, callback);
                self.phase = WasmInvokePhase::Invoking { method_ptr, data_ptr, id_ptr: p };
                (
                    GuestAction::CallInvoke {
                        instance: self.instance,
                        method_ptr,
                        data_ptr,
                        id_ptr: p,
                    },
                    None,
                )
            },
            Err(msg) => {
                self.phase = WasmInvokePhase::Done { completed: false };
                let mut cb = callback;
                cb.fire_error(
                    CallbackError {
                        code: WASM_MEM_ERROR_CODE,
                        err_name: Some(String::from_str("WasmMemError")),
                        description: Some(msg),
                        data: None,
                    },
                );
                (GuestAction::Report, Some(cb))
            },
        }
    }

    /// The guest's `invoke` returned. The parked callback is taken back out
    /// of the pending table, carrying whatever the guest delivered into it
    /// while the call was on the stack. If the export failed,
    /// `WasmInvokeError` fires on the taken-back callback (a callback the
    /// guest already answered discards it). Either way the marshalled memory
    /// is now released, starting with the method slice, and the callback is
    /// handed back to its owner.
    pub fn invoked(
        &mut self,
        result: Result<(), String>,
        pending: &mut WasmModuleState,
    ) -> (r: (GuestAction, Option<NativeCallback>))
        requires
            old(self).phase matches WasmInvokePhase::Invoking { .. },
            old(pending).wf(),
        ensures
            final(self).instance == old(self).instance,
            final(self).id == old(self).id,
            final(pending).wf(),
            !final(pending).spec_contains(old(self).id),
            forall|q: u128|
                q != old(self).id ==> (final(pending).spec_contains(q) <==> old(
                    pending,
                ).spec_contains(q)),
            forall|q: u128|
                q != old(self).id && old(pending).spec_contains(q) ==> final(pending).spec_at(q)
                    == old(pending).spec_at(q),
            old(self).phase matches WasmInvokePhase::Invoking { method_ptr, data_ptr, id_ptr }
                ==> {
                &&& final(self).phase matches WasmInvokePhase::FreeMethod {
                    method_ptr: m,
                    data_ptr: d,
                    id_ptr: i,
                } && m == method_ptr && d == data_ptr && i == id_ptr
                &&& r.0 matches GuestAction::FreeSlice { ptr } && ptr == method_ptr
            },
            r.1 is Some <==> old(pending).spec_contains(old(self).id),
            (match result {
                Ok(()) => (match r.1 {
                    Some(cb) => old(pending).spec_contains(old(self).id) && cb == old(
                        pending,
                    ).spec_at(old(self).id),
                    None => true,
                }),
                Err(msg) => (match r.1 {
                    Some(cb) => {
                        let prior = old(pending).spec_at(old(self).id);
                        if prior.spec_armed() {
                            cb.spec_delivered() matches Some(CallbackData::Error(e))
                                && spec_wasm_invoke_error(e, msg@)
                        } else {
                            cb == prior
                        }
                    },
                    None => true,
                }),
            }),
    {
        let (method_ptr, data_ptr, id_ptr) = match &self.phase {
            WasmInvokePhase::Invoking { method_ptr, data_ptr, id_ptr } => (
                *method_ptr,
                *data_ptr,
                *id_ptr,
            ),
            _ => (0, 0, 0),  // unreachable by the precondition
        };
        let taken = pending.remove_callback(self.id);
        let handed_back = match (taken, result) {
            (Some(cb), Ok(())) => Some(cb),
            (Some(mut cb), Err(msg)) => {
                cb.fire_error(
                    CallbackError {
                        code: WASM_INVOKE_ERROR_CODE,
                        err_name: Some(String::from_str("WasmInvokeError")),
                        description: Some(msg),
                        data: None,
                    },
                );
                Some(cb)
            },
            (None, _) => None,
        };
        self.phase = WasmInvokePhase::FreeMethod { method_ptr, data_ptr, id_ptr };
        (GuestAction::FreeSlice { ptr: method_ptr }, handed_back)
    }

    /// The method slice is released; next the payload slice.
    pub fn freed_method(&mut self) -> (a: GuestAction)
        requires
            old(self).phase matches WasmInvokePhase::FreeMethod { .. },
        ensures
            final(self).instance == old(self).instance,
            final(self).id == old(self).id,
            old(self).phase matches WasmInvokePhase::FreeMethod { method_ptr, data_ptr, id_ptr }
                ==> {
                &&& final(self).phase matches WasmInvokePhase::FreeData { data_ptr: d, id_ptr: i }
                    && d == data_ptr && i == id_ptr
                &&& a matches GuestAction::FreeSlice { ptr } && ptr == data_ptr
            },
    {
        let (data_ptr, id_ptr) = match &self.phase {
            WasmInvokePhase::FreeMethod { data_ptr, id_ptr, .. } => (*data_ptr, *id_ptr),
            _ => (0, 0),  // unreachable by the precondition
        };
        self.phase = WasmInvokePhase::FreeData { data_ptr, id_ptr };
        GuestAction::FreeSlice { ptr: data_ptr }
    }

    /// The payload slice is released; next the 16-byte identifier buffer.
    pub fn freed_data(&mut self) -> (a: GuestAction)
        requires
            old(self).phase matches WasmInvokePhase::FreeData { .. },
        ensures
            final(self).instance == old(self).instance,
            final(self).id == old(self).id,
            old(self).phase matches WasmInvokePhase::FreeData { data_ptr, id_ptr } ==> {
                &&& final(self).phase matches WasmInvokePhase::FreeId { id_ptr: i } && i == id_ptr
                &&& a matches GuestAction::FreeBytes { ptr, len } && ptr == id_ptr && len == 16
            },
    {
        let id_ptr = match &self.phase {
            WasmInvokePhase::FreeData { id_ptr, .. } => *id_ptr,
            _ => 0,  // unreachable by the precondition
        };
        self.phase = WasmInvokePhase::FreeId { id_ptr };
        GuestAction::FreeBytes { ptr: id_ptr, len: 16 }
    }

    /// The identifier buffer is released: every allocation of this
    /// invocation has been freed and the machine completes.
    pub fn freed_id(&mut self) -> (a: GuestAction)
        requires
            old(self).phase matches WasmInvokePhase::FreeId { .. },
        ensures
            final(self).instance == old(self).instance,
            final(self).id == old(self).id,
            final(self).phase matches WasmInvokePhase::Done { completed } && completed,
            a is Report,
    {
        self.phase = WasmInvokePhase::Done { completed: true };
        GuestAction::Report
    }
}

/// A delivery into the guest: which trampoline to call with which values,
/// for the continuation the guest referred to by its callback identifier.
#[derive(Debug)]
pub enum GuestDelivery {
    OnSuccess { data: Option<Vec<u8>> },
    OnError {
        code: i32,
        err_name: Option<String>,
        description: Option<String>,
        data: Option<Vec<u8>>,
    },
}

/// What the registry should be asked to do for a guest-initiated call.
#[derive(Debug)]
pub struct RegistryInvocation {
    pub package: String,
    pub method: String,
    pub data: Option<Vec<u8>>,
}

/// The guest import `__wm_registry_invoke`: decodes the package and method
/// the guest points at. Both present and valid UTF-8, the call goes to the
/// registry; otherwise the guest callback is answered at once with an
/// `InvalidArguments` error and the import returns -1, with nothing
/// dispatched.
pub fn registry_invoke(
    package: Option<Vec<u8>>,
    method: Option<Vec<u8>>,
    data: Option<Vec<u8>>,
) -> (r: Result<RegistryInvocation, (GuestDelivery, i32)>)
    ensures
        (match (package, method) {
            (Some(p), Some(m)) => {
                if valid_utf8(p@) && valid_utf8(m@) {
                    r matches Ok(inv) && inv.package@ == decode_utf8(p@) && inv.method@
                        == decode_utf8(m@) && inv.data == data
                } else {
                    r matches Err(e) && spec_invalid_arguments_delivery(e.0) && e.1 == -1
                }
            },
            _ => r matches Err(e) && spec_invalid_arguments_delivery(e.0) && e.1 == -1,
        }),
{
    let package_str = match package {
        Some(p) => bytes_to_string(p),
        None => None,
    };
    let method_str = match method {
        Some(m) => bytes_to_string(m),
        None => None,
    };
    match (package_str, method_str) {
        (Some(p), Some(m)) => Ok(RegistryInvocation { package: p, method: m, data }),
        _ => {
            Err(
                (
                    GuestDelivery::OnError {
                        code: -1,
                        err_name: Some(String::from_str("InvalidArguments")),
                        description: Some(String::from_str("Invalid package or method name")),
                        data: None,
                    },
                    -1,
                ),
            )
        },
    }
}

/// The delivery answered to a guest whose registry call carried an absent or
/// undecodable package or method.
pub open spec fn spec_invalid_arguments_delivery(d: GuestDelivery) -> bool {
    &&& d matches GuestDelivery::OnError { code, err_name, description, data } && {
        &&& code == -1
        &&& err_name matches Some(n) && n@ == "InvalidArguments"@
        &&& description matches Some(s) && s@ == "Invalid package or method name"@
        &&& data is None
    }
}

/// Maps the one terminal outcome of a forwarded registry call to the
/// delivery the guest receives; the guest-side callback is destroyed right
/// after this delivery, whatever it was.
pub fn guest_delivery(outcome: CallbackData) -> (r: GuestDelivery)
    ensures
        (match outcome {
            CallbackData::Success(s) => r matches GuestDelivery::OnSuccess { data } && data
                == s.data,
            CallbackData::Error(e) => r matches GuestDelivery::OnError {
                code,
                err_name,
                description,
                data,
            } && code == e.code && err_name == e.err_name && description == e.description && data
                == e.data,
        }),
{
    match outcome {
        CallbackData::Success(s) => GuestDelivery::OnSuccess { data: s.data },
        CallbackData::Error(e) => GuestDelivery::OnError {
            code: e.code,
            err_name: e.err_name,
            description: e.description,
            data: e.data,
        },
    }
}

/// The guest import `__wm_callback_on_success`: the guest delivers a
/// successful continuation for the identifier it read back from memory. The
/// parked callback, if any, receives it; only its first terminal event is
/// kept, and an unknown identifier is ignored.
pub fn on_success_fn(state: &mut WasmModuleState, id: u128, data: Option<Vec<u8>>)
    requires
        old(state).wf(),
    ensures
        final(state).wf(),
        !old(state).spec_contains(id) ==> *final(state) == *old(state),
        old(state).spec_contains(id) ==> {
            &&& final(state).spec_contains(id)
            &&& final(state).spec_at(id) == old(state).spec_at(id).spec_deliver(
                CallbackData::Success(CallbackSuccess { data }),
            )
        },
        forall|q: u128|
            q != id ==> (final(state).spec_contains(q) <==> old(state).spec_contains(q)),
        forall|q: u128|
            q != id && old(state).spec_contains(q) ==> final(state).spec_at(q) == old(
                state,
            ).spec_at(q),
{
    state.deliver_success(id, data);
}

/// The guest import `__wm_callback_on_error`: the guest delivers a failed
/// continuation for the identifier. The parked callback, if any, receives
/// it; only its first terminal event is kept, and an unknown identifier is
/// ignored.
pub fn on_err_fn(
    state: &mut WasmModuleState,
    id: u128,
    code: i32,
    err_name: Option<String>,
    description: Option<String>,
    data: Option<Vec<u8>>,
)
    requires
        old(state).wf(),
    ensures
        final(state).wf(),
        !old(state).spec_contains(id) ==> *final(state) == *old(state),
        old(state).spec_contains(id) ==> {
            &&& final(state).spec_contains(id)
            &&& final(state).spec_at(id) == old(state).spec_at(id).spec_deliver(
                CallbackData::Error(CallbackError { code, err_name, description, data }),
            )
        },
        forall|q: u128|
            q != id ==> (final(state).spec_contains(q) <==> old(state).spec_contains(q)),
        forall|q: u128|
            q != id && old(state).spec_contains(q) ==> final(state).spec_at(q) == old(
                state,
            ).spec_at(q),
{
    state.deliver_error(id, CallbackError { code, err_name, description, data });
}

} // verus!
