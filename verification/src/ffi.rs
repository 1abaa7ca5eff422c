//! The registry's own FFI surface: the shims a native module calls through
//! its registry vtable, with the values they carry modelled as plain data.
//!
//! A vtable function receives nullable byte ranges; here an absent pointer is
//! `None` and a present one carries the bytes it points at. The shims decode,
//! validate, and forward into the registry, and report through the vtable's
//! integer status codes.

use vstd::prelude::*;
use vstd::slice::slice_to_vec;
use vstd::utf8::{decode_utf8, valid_utf8};
use crate::abi::bytes_to_string;
use crate::callback::{CallbackData, NativeCallback};
use crate::errors::Error;
use crate::module::NativeModule;
use crate::registry::{
    spec_module_not_found_error, InvocationContext, Modular, RegistryModule,
};

verus! {

/// A null-checked mutable pointer handed across the FFI boundary: `None`
/// stands for the null pointer.
pub struct NativeMutPtr<T>(pub Option<T>);

impl<T> NativeMutPtr<T> {
    /// Borrows the pointee, refusing the null pointer.
    pub fn as_ref(&self) -> (r: Option<&T>)
        ensures
            (match r {
                Some(v) => self.0 matches Some(inner) && *v == inner,
                None => self.0 is None,
            }),
    {
        match &self.0 {
            Some(v) => Some(v),
            None => None,
        }
    }
}

/// What a native module hands the registry's `invoke` vtable entry: the
/// target package, the method, the payload, and the one-shot callback the
/// outcome is delivered through.
pub struct NativeRegistryInvocationData {
    pub module: Option<Vec<u8>>,
    pub method: Option<Vec<u8>>,
    pub data: Option<Vec<u8>>,
    pub callback_vtable: NativeCallback,
}

/// What a module's `invoke` vtable entry receives alongside method and
/// payload: the callback for its one terminal event.
pub struct NativeModuleInvocationContext {
    pub callback: NativeCallback,
}

/// The call-chain items handed out through the registry vtable, decoded: a
/// null pointer or undecodable bytes are skipped, everything else is kept in
/// order.
pub open spec fn spec_chain_items(items: Seq<Option<Seq<u8>>>) -> Seq<Seq<char>>
    decreases items.len(),
{
    if items.len() == 0 {
        Seq::empty()
    } else {
        spec_chain_items(items.drop_last()) + (match items.last() {
            Some(b) => if valid_utf8(b) {
                seq![decode_utf8(b)]
            } else {
                Seq::empty()
            },
            None => Seq::empty(),
        })
    }
}

/// Decodes the call chain read through the registry vtable: each item the
/// registry handed out, in order, with null pointers and invalid UTF-8
/// skipped.
pub fn get_chain_items(items: &Vec<Option<Vec<u8>>>) -> (r: Vec<String>)
    ensures
        r.deep_view() == spec_chain_items(items.deep_view()),
{
    let mut out: Vec<String> = Vec::new();
    let n = items.len();
    for i in 0..n
        invariant
            n == items@.len(),
            out.deep_view() == spec_chain_items(items.deep_view().take(i as int)),
    {
        let ghost prefix = items.deep_view().take(i as int);
        match &items[i] {
            Some(b) => {
                proof {
                    assert(b.deep_view() =~= b@);
                    assert(items.deep_view()[i as int] == Some(b@));
                }
                let bytes = slice_to_vec(b.as_slice());
                match bytes_to_string(bytes) {
                    Some(s) => {
                        out.push(s);
                    },
                    None => {
                    },
                }
            },
            None => {
                proof {
                    assert(items.deep_view()[i as int] == Option::<Seq<u8>>::None);
                }
            },
        }
        proof {
            let prefix1 = items.deep_view().take(i + 1);
            assert(prefix1.drop_last() =~= prefix);
            assert(prefix1.last() == items.deep_view()[i as int]);
            assert(out.deep_view() =~~= spec_chain_items(prefix1));
        }
    }
    proof {
        assert(items.deep_view().take(n as int) =~= items.deep_view());
    }
    out
}

/// The registry vtable's `invoke` shim. A null module or method pointer is
/// refused with -1 before anything is decoded; a module name that is not
/// UTF-8 is refused with -1, a method that is not UTF-8 with -2. A decoded
/// call goes to the registry: 0 when the target package was found and the
/// dispatch context is handed back for the call to be performed, 1 when it
/// was unknown — the callback then already carries the `ModuleNotFound`
/// error. The callback travels back to the caller in every case.
pub fn registry_invoke(registry: &mut Modular, invocation_data: NativeRegistryInvocationData)
    -> (r: (i32, Option<InvocationContext>, NativeCallback))
    requires
        old(registry).wf(),
        invocation_data.callback_vtable.spec_armed(),
        (match invocation_data.module {
            Some(b) => (valid_utf8(b@) && old(registry).spec_contains(decode_utf8(b@))) ==> old(
                registry,
            ).spec_at(decode_utf8(b@)).in_flight < usize::MAX,
            None => true,
        }),
    ensures
        final(registry).wf(),
        (match (invocation_data.module, invocation_data.method) {
            (Some(m), Some(a)) => {
                if !valid_utf8(m@) {
                    r.0 == -1 && *final(registry) == *old(registry) && r.1 is None
                        && r.2 == invocation_data.callback_vtable
                } else if !valid_utf8(a@) {
                    r.0 == -2 && *final(registry) == *old(registry) && r.1 is None
                        && r.2 == invocation_data.callback_vtable
                } else if old(registry).spec_contains(decode_utf8(m@)) {
                    &&& r.0 == 0
                    &&& r.2 == invocation_data.callback_vtable
                    &&& (r.1 matches Some(ctx) && ctx.instance == old(registry).spec_at(
                        decode_utf8(m@),
                    ).module.instance && ctx.method@ == decode_utf8(a@) && ctx.data
                        == invocation_data.data)
                } else {
                    &&& r.0 == 1
                    &&& *final(registry) == *old(registry)
                    &&& r.1 is None
                    &&& r.2.spec_delivered() is Some
                }
            },
            _ => r.0 == -1 && *final(registry) == *old(registry) && r.1 is None && r.2
                == invocation_data.callback_vtable,
        }),
{
    let NativeRegistryInvocationData { module, method, data, callback_vtable } = invocation_data;
    let mut callback = callback_vtable;
    let module_bytes = match module {
        Some(b) => b,
        None => {
            return (-1, None, callback);
        },
    };
    let method_bytes = match method {
        Some(b) => b,
        None => {
            return (-1, None, callback);
        },
    };
    let package = match bytes_to_string(module_bytes) {
        Some(s) => s,
        None => {
            return (-1, None, callback);
        },
    };
    let method_name = match bytes_to_string(method_bytes) {
        Some(s) => s,
        None => {
            return (-2, None, callback);
        },
    };
    let forwarded = registry.invoke(&package, &method_name, data, &mut callback);
    match forwarded {
        Some(ctx) => (0, Some(ctx), callback),
        None => (1, None, callback),
    }
}

/// The registry as a native module sees it: an erased handle whose vtable
/// entries decode the byte ranges a module hands over and forward into the
/// registry they wrap. The shims panic on an absent or undecodable package
/// or method name, so those inputs are excluded here.
pub struct NativeRegistry {
    pub registry: Modular,
}

impl NativeRegistry {
    /// Erases a registry behind the vtable handle.
    pub fn new(registry: Modular) -> (r: Self)
        ensures
            r.registry == registry,
    {
        Self { registry }
    }

    /// The vtable's `run` entry: enters the run of all modules, with the
    /// re-entry guard of [`Modular::run`].
    pub fn run(&mut self) -> (r: Result<Vec<u64>, Error>)
        requires
            old(self).registry.wf(),
        ensures
            final(self).registry.wf(),
            r is Err <==> old(self).registry.is_running,
            r matches Err(e) ==> e == Error::RegistryAlreadyRunning && *final(self) == *old(self),
            r matches Ok(v) ==> {
                &&& final(self).registry.is_running
                &&& final(self).registry.modules == old(self).registry.modules
                &&& v@.len() == old(self).registry.modules@.len()
                &&& forall|i: int|
                    0 <= i < v@.len() ==> v@[i] == old(self).registry.modules@[i].module.instance
            },
    {
        self.registry.run()
    }

    /// The vtable's `register_module` entry: forwards the module into the
    /// registry under its package name.
    pub fn register_module(&mut self, module: NativeModule) -> (r: Option<RegistryModule>)
        requires
            old(self).registry.wf(),
        ensures
            final(self).registry.wf(),
            final(self).registry.spec_contains(module.package@),
            final(self).registry.spec_at(module.package@).module == module,
            (match r {
                Some(prior) => old(self).registry.spec_contains(module.package@) && prior == old(
                    self,
                ).registry.spec_at(module.package@),
                None => !old(self).registry.spec_contains(module.package@),
            }),
    {
        self.registry.register_module(module)
    }

    /// The vtable's `deregister_module` entry: decodes the package range —
    /// the shim panics on a null pointer or invalid UTF-8, so both are
    /// excluded — and removes that entry, if present.
    pub fn deregister_module(&mut self, package: Option<Vec<u8>>) -> (r: Option<RegistryModule>)
        requires
            old(self).registry.wf(),
            package matches Some(b) && valid_utf8(b@),
        ensures
            final(self).registry.wf(),
            (match package {
                Some(b) => {
                    &&& !final(self).registry.spec_contains(decode_utf8(b@))
                    &&& (r is Some <==> old(self).registry.spec_contains(decode_utf8(b@)))
                },
                None => true,
            }),
    {
        let bytes = match package {
            Some(b) => b,
            None => {
                return None;  // unreachable by the precondition
            },
        };
        let name = match bytes_to_string(bytes) {
            Some(s) => s,
            None => {
                return None;  // unreachable by the precondition
            },
        };
        self.registry.deregister_module(&name)
    }

    /// The vtable's `invoke` entry: decodes package and method — the shim
    /// panics on null or undecodable ranges, so those are excluded — and
    /// dispatches, handing back the context of a found target; an unknown
    /// package has answered the callback with `ModuleNotFound`.
    pub fn invoke(
        &mut self,
        package: Option<Vec<u8>>,
        method: Option<Vec<u8>>,
        data: Option<Vec<u8>>,
        callback: &mut NativeCallback,
    ) -> (r: Option<InvocationContext>)
        requires
            old(self).registry.wf(),
            old(callback).spec_armed(),
            package matches Some(b) && valid_utf8(b@),
            method matches Some(b) && valid_utf8(b@),
            (match package {
                Some(b) => old(self).registry.spec_contains(decode_utf8(b@)) ==> old(
                    self,
                ).registry.spec_at(decode_utf8(b@)).in_flight < usize::MAX,
                None => true,
            }),
        ensures
            final(self).registry.wf(),
            (match (package, method) {
                (Some(p), Some(m)) => {
                    &&& (r is Some <==> old(self).registry.spec_contains(decode_utf8(p@)))
                    &&& !old(self).registry.spec_contains(decode_utf8(p@)) ==> {
                        &&& *final(self) == *old(self)
                        &&& final(callback).spec_delivered() matches Some(CallbackData::Error(e))
                            && spec_module_not_found_error(e, decode_utf8(p@))
                    }
                    &&& old(self).registry.spec_contains(decode_utf8(p@)) ==> {
                        &&& *final(callback) == *old(callback)
                        &&& (r matches Some(ctx) && ctx.instance == old(self).registry.spec_at(
                            decode_utf8(p@),
                        ).module.instance && ctx.method@ == decode_utf8(m@) && ctx.data == data)
                    }
                },
                _ => true,
            }),
    {
        let package_bytes = match package {
            Some(b) => b,
            None => {
                return None;  // unreachable by the precondition
            },
        };
        let method_bytes = match method {
            Some(b) => b,
            None => {
                return None;  // unreachable by the precondition
            },
        };
        let package_name = match bytes_to_string(package_bytes) {
            Some(s) => s,
            None => {
                return None;  // unreachable by the precondition
            },
        };
        let method_name = match bytes_to_string(method_bytes) {
            Some(s) => s,
            None => {
                return None;  // unreachable by the precondition
            },
        };
        self.registry.invoke(&package_name, &method_name, data, callback)
    }
}

} // verus!
