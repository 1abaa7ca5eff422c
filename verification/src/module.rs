//! Modules: identity, lifecycle and the FFI entry that routes an `invoke`
//! request into a module.
//!
//! A module is identified by a `(package, version)` pair of UTF-8 strings;
//! the package name is its unique key in the registry. Behind the FFI
//! boundary a module is a vtable over an opaque instance pointer; here the
//! instance is an opaque handle and the identity is held as plain strings,
//! which is all the routing logic reads.

use vstd::prelude::*;
use vstd::utf8::{decode_utf8, encode_utf8, valid_utf8};
use crate::abi::bytes_to_string;
use crate::callback::{CallbackData, CallbackError, NativeCallback};
use crate::errors::{Error, RunError};

verus! {

/// The message carried by the error synthesized for an undecodable method
/// name.
pub open spec fn spec_invalid_method_description() -> Seq<char> {
    "empty or non-valid (not utf8) method name"@
}

/// The callback error synthesized when a method name cannot be decoded:
/// `FfiInvalidMethodName`, its tag, the fixed description, no payload.
pub open spec fn spec_invalid_method_error(e: CallbackError) -> bool {
    &&& e.code == Error::FfiInvalidMethodName.spec_code()
    &&& e.err_name matches Some(n) && n@ == Error::FfiInvalidMethodName.spec_name()
    &&& e.description matches Some(d) && d@ == spec_invalid_method_description()
    &&& e.data is None
}

/// A module held behind the FFI boundary: its identity as plain strings, an
/// opaque handle standing for the erased instance pointer, and whether its
/// vtable carries the optional `run` entry.
pub struct NativeModule {
    pub package: String,
    pub version: String,
    pub has_run: bool,
    pub instance: u64,
}

impl NativeModule {
    /// Binds a module's identity and instance handle into a vtable value.
    pub fn new(package: String, version: String, has_run: bool, instance: u64) -> (r: Self)
        ensures
            r.package == package,
            r.version == version,
            r.has_run == has_run,
            r.instance == instance,
    {
        Self { package, version, has_run, instance }
    }

    /// The module's package name: its unique key in the registry. Stable for
    /// the module's lifetime.
    pub fn package(&self) -> (r: &str)
        ensures
            r@ == self.package@,
    {
        self.package.as_str()
    }

    /// The module's version string. Stable for the module's lifetime.
    pub fn version(&self) -> (r: &str)
        ensures
            r@ == self.version@,
    {
        self.version.as_str()
    }

    /// Interprets the status a module's `run` entry returned: zero is
    /// success, anything else a lifecycle failure with that code. A module
    /// without a `run` entry reports success.
    pub fn run_result(&self, status: i32) -> (r: Result<(), RunError>)
        ensures
            !self.has_run ==> r is Ok,
            self.has_run ==> (r is Ok <==> status == 0),
            self.has_run && status != 0 ==> (r matches Err(e) && e.code == status && e.message@
                == "native run failed"@),
    {
        if !self.has_run {
            return Ok(());
        }
        if status == 0 {
            Ok(())
        } else {
            Err(RunError::new(status, String::from_str("native run failed")))
        }
    }

    /// The FFI `invoke` entry's method decoding: an absent or non-UTF-8
    /// method name fires `FfiInvalidMethodName` on the callback and stops the
    /// call; a decodable one is returned for dispatch, the callback untouched.
    pub fn invoke_fn(method: Option<Vec<u8>>, callback: &mut NativeCallback) -> (r: Option<
        String,
    >)
        requires
            old(callback).spec_armed(),
        ensures
            (match method {
                Some(b) => {
                    if valid_utf8(b@) {
                        &&& r matches Some(s) && s@ == decode_utf8(b@)
                        &&& *final(callback) == *old(callback)
                    } else {
                        &&& r is None
                        &&& final(callback).spec_delivered() matches Some(
                            CallbackData::Error(e),
                        ) && spec_invalid_method_error(e)
                    }
                },
                None => {
                    &&& r is None
                    &&& final(callback).spec_delivered() matches Some(CallbackData::Error(e))
                        && spec_invalid_method_error(e)
                },
            }),
    {
        let decoded: Option<String> = match method {
            Some(b) => bytes_to_string(b),
            None => None,
        };
        match decoded {
            Some(s) => Some(s),
            None => {
                callback.fire_error(
                    CallbackError {
                        code: Error::FfiInvalidMethodName.code(),
                        err_name: Some(String::from_str(Error::FfiInvalidMethodName.as_ref())),
                        description: Some(
                            String::from_str("empty or non-valid (not utf8) method name"),
                        ),
                        data: None,
                    },
                );
                None
            },
        }
    }
}

/// Round trip for UTF-8 strings crossing the boundary: the byte encoding of
/// any string is valid UTF-8 and decodes back to the same characters, so a
/// valid method name survives the crossing unchanged.
pub proof fn lemma_method_name_round_trip(s: Seq<char>)
    ensures
        valid_utf8(encode_utf8(s)),
        decode_utf8(encode_utf8(s)) == s,
{
    broadcast use vstd::utf8::encode_utf8_valid_utf8;
    broadcast use vstd::utf8::encode_utf8_decode_utf8;

}

/// The other direction: any valid UTF-8 byte sequence re-encodes from its
/// characters to exactly the same bytes.
pub proof fn lemma_method_bytes_round_trip(b: Seq<u8>)
    requires
        valid_utf8(b),
    ensures
        encode_utf8(decode_utf8(b)) == b,
{
    broadcast use vstd::utf8::decode_utf8_encode_utf8;

}

} // verus!
