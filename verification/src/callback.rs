//! One-shot callbacks: the continuation a callee fires exactly once, as
//! success or as error.
//!
//! Across the FFI boundary a callback travels as a vtable whose user-data
//! pointer is nulled out when the first terminal event fires, so that later
//! events find nothing to call and are silently discarded. [`NativeCallback`]
//! models that object: it accepts and records the first terminal event it
//! receives and ignores every later one.

use vstd::prelude::*;
use vstd::utf8::{decode_utf8, valid_utf8};
use crate::abi::{bytes_to_string, NativeByteSlice, NativeString};

verus! {

/// A successful outcome: the optional payload handed to `on_success`.
#[derive(Clone, Debug, PartialEq, Eq)]
pub struct CallbackSuccess {
    pub data: Option<Vec<u8>>,
}

/// A failed outcome: the code, tag, description and payload handed to
/// `on_error`.
#[derive(Clone, Debug, PartialEq, Eq)]
pub struct CallbackError {
    pub code: i32,
    pub err_name: Option<String>,
    pub description: Option<String>,
    pub data: Option<Vec<u8>>,
}

/// A terminal event: what a callback receives, once.
#[derive(Clone, Debug, PartialEq, Eq)]
pub enum CallbackData {
    Success(CallbackSuccess),
    Error(CallbackError),
}

/// The continuation contract a module or adapter fires into. Implementations
/// outside this crate adapt it to their own environment; [`NativeCallback`]
/// is the crate's own, which records the event.
pub trait Callback {
    fn on_success(&mut self, result: CallbackSuccess);

    fn on_error(&mut self, err: CallbackError);
}

/// A one-shot callback object.
///
/// While `delivered` is `None` the object is armed — the vtable's user-data
/// pointer is still set — and the next terminal event is recorded and
/// disarms it. Afterwards every event is discarded unchanged.
pub struct NativeCallback {
    pub delivered: Option<CallbackData>,
}

impl NativeCallback {
    /// Whether this callback may still accept a terminal event.
    pub open spec fn spec_armed(self) -> bool {
        self.delivered is None
    }

    /// The terminal event this callback received, if any.
    pub open spec fn spec_delivered(self) -> Option<CallbackData> {
        self.delivered
    }

    /// The state after a terminal event is pushed at a callback: recorded if
    /// it was armed, discarded otherwise.
    pub open spec fn spec_deliver(self, event: CallbackData) -> NativeCallback {
        if self.spec_armed() {
            NativeCallback { delivered: Some(event) }
        } else {
            self
        }
    }

    /// The state after a whole sequence of terminal events is pushed at a
    /// callback, in order.
    pub open spec fn spec_deliver_all(self, events: Seq<CallbackData>) -> NativeCallback
        decreases events.len(),
    {
        if events.len() == 0 {
            self
        } else {
            self.spec_deliver(events[0]).spec_deliver_all(events.drop_first())
        }
    }

    /// A fresh callback: armed, nothing delivered yet.
    pub fn new() -> (r: Self)
        ensures
            r.spec_armed(),
            r.spec_delivered() is None,
    {
        Self { delivered: None }
    }

    /// Delivers a terminal event: recorded if the callback is still armed,
    /// silently discarded otherwise.
    pub fn deliver(&mut self, event: CallbackData)
        ensures
            *final(self) == old(self).spec_deliver(event),
            old(self).spec_armed() ==> final(self).spec_delivered() == Some(event),
            !old(self).spec_armed() ==> *final(self) == *old(self),
    {
        if self.delivered.is_none() {
            self.delivered = Some(event);
        }
    }

    /// Fires the success continuation; only the first terminal event is
    /// kept, later ones are discarded.
    pub fn fire_success(&mut self, result: CallbackSuccess)
        ensures
            *final(self) == old(self).spec_deliver(CallbackData::Success(result)),
    {
        self.deliver(CallbackData::Success(result));
    }

    /// Fires the error continuation; only the first terminal event is
    /// kept, later ones are discarded.
    pub fn fire_error(&mut self, err: CallbackError)
        ensures
            *final(self) == old(self).spec_deliver(CallbackData::Error(err)),
    {
        self.deliver(CallbackData::Error(err));
    }

    /// Reads the terminal event the callback received, if any.
    pub fn delivered(&self) -> (r: &Option<CallbackData>)
        ensures
            *r == self.spec_delivered(),
    {
        &self.delivered
    }

    /// Consumes the callback at the end of its lifetime, yielding the one
    /// terminal event it received, if any.
    pub fn take(self) -> (r: Option<CallbackData>)
        ensures
            r == self.spec_delivered(),
    {
        self.delivered
    }
}

impl Callback for NativeCallback {
    fn on_success(&mut self, result: CallbackSuccess) {
        self.fire_success(result);
    }

    fn on_error(&mut self, err: CallbackError) {
        self.fire_error(err);
    }
}

/// A successful outcome as it crosses the FFI boundary: the payload as a
/// nullable byte range.
#[derive(Clone, Copy, Debug, PartialEq, Eq, Structural)]
pub struct NativeCallbackSuccess {
    pub data: NativeByteSlice,
}

impl NativeCallbackSuccess {
    /// Encodes an optional borrowed payload for the crossing.
    pub fn from_range(data: Option<(usize, usize)>) -> (r: Self)
        requires
            data matches Some(d) ==> d.0 != 0,
        ensures
            r.data.spec_range() == data,
    {
        Self { data: NativeByteSlice::from_option(data) }
    }

    /// Decodes the payload range on the far side of the crossing.
    pub fn to_range(&self) -> (r: Option<(usize, usize)>)
        ensures
            r == self.data.spec_range(),
    {
        self.data.to_option()
    }
}

/// A failed outcome as it crosses the FFI boundary: the code and three
/// nullable byte ranges for tag, description and payload.
#[derive(Clone, Copy, Debug, PartialEq, Eq, Structural)]
pub struct NativeCallbackError {
    pub code: i32,
    pub err_name: NativeString,
    pub description: NativeString,
    pub data: NativeByteSlice,
}

/// The tag substituted when an error's name range crosses the boundary with
/// bytes that are not UTF-8.
pub open spec fn spec_unknown_error_name() -> Seq<char> {
    "UNKNOWN_ERROR_INVALID_UTF8"@
}

/// The description substituted when an error's description range crosses the
/// boundary with bytes that are not UTF-8.
pub open spec fn spec_invalid_description() -> Seq<char> {
    "empty description (invalid format)"@
}

/// Rebuilds a callback error from the values read behind a
/// [`NativeCallbackError`]'s ranges: an absent range stays absent, valid
/// UTF-8 decodes, and undecodable bytes are replaced by a fixed placeholder
/// rather than dropped. The payload passes through unexamined.
pub fn callback_error_from_native(
    code: i32,
    err_name: Option<Vec<u8>>,
    description: Option<Vec<u8>>,
    data: Option<Vec<u8>>,
) -> (r: CallbackError)
    ensures
        r.code == code,
        (match err_name {
            None => r.err_name is None,
            Some(b) => r.err_name matches Some(n) && n@ == if valid_utf8(b@) {
                decode_utf8(b@)
            } else {
                spec_unknown_error_name()
            },
        }),
        (match description {
            None => r.description is None,
            Some(b) => r.description matches Some(d) && d@ == if valid_utf8(b@) {
                decode_utf8(b@)
            } else {
                spec_invalid_description()
            },
        }),
        r.data == data,
{
    let err_name = match err_name {
        None => None,
        Some(b) => Some(
            match bytes_to_string(b) {
                Some(s) => s,
                None => String::from_str("UNKNOWN_ERROR_INVALID_UTF8"),
            },
        ),
    };
    let description = match description {
        None => None,
        Some(b) => Some(
            match bytes_to_string(b) {
                Some(s) => s,
                None => String::from_str("empty description (invalid format)"),
            },
        ),
    };
    CallbackError { code, err_name, description, data }
}

/// Exactly-once delivery: however many terminal events are pushed at a fresh
/// callback over its lifetime, it receives precisely the first one; every
/// later event is discarded.
pub proof fn lemma_callback_single_fire(cb: NativeCallback, events: Seq<CallbackData>)
    requires
        cb.spec_armed(),
        events.len() > 0,
    ensures
        cb.spec_deliver_all(events).spec_delivered() == Some(events[0]),
    decreases events.len(),
{
    let fired = cb.spec_deliver(events[0]);
    lemma_callback_stays_fired(fired, events.drop_first());
}

/// A callback that has received its terminal event is never changed by any
/// further sequence of events.
pub proof fn lemma_callback_stays_fired(cb: NativeCallback, events: Seq<CallbackData>)
    requires
        !cb.spec_armed(),
    ensures
        cb.spec_deliver_all(events) == cb,
    decreases events.len(),
{
    if events.len() > 0 {
        lemma_callback_stays_fired(cb, events.drop_first());
    }
}

} // verus!
