//! The WASM adapter's pending-callback table: host-side callbacks parked
//! under a 128-bit identifier while a host → guest invocation is in flight.
//!
//! The identifier is written into guest memory so the guest can refer back to
//! it when delivering its continuation. A delivery reaches the parked
//! callback, which accepts only its first terminal event; the invocation
//! that parked the entry collects it again when the guest call returns, so a
//! delivery naming an identifier that was never parked, or whose invocation
//! is already over, is ignored.

use vstd::prelude::*;
use crate::callback::{CallbackData, CallbackError, CallbackSuccess, NativeCallback};

verus! {

/// The adapter state a guest instance's host imports share: the table of
/// callbacks awaiting a terminal event from the guest, keyed by identifier.
pub struct WasmModuleState {
    pub callbacks: Vec<(u128, NativeCallback)>,
}

impl WasmModuleState {
    /// Identifiers are unique: no two entries share one.
    pub open spec fn wf(self) -> bool {
        forall|i: int, j: int|
            0 <= i < j < self.callbacks@.len() ==> self.callbacks@[i].0 != self.callbacks@[j].0
    }

    /// Whether some entry is parked under the given identifier.
    pub open spec fn spec_contains(self, id: u128) -> bool {
        exists|i: int| 0 <= i < self.callbacks@.len() && self.callbacks@[i].0 == id
    }

    /// The index of the entry parked under the given identifier.
    pub open spec fn spec_index_of(self, id: u128) -> int {
        choose|i: int| 0 <= i < self.callbacks@.len() && self.callbacks@[i].0 == id
    }

    /// The callback parked under the given identifier.
    pub open spec fn spec_at(self, id: u128) -> NativeCallback {
        self.callbacks@[self.spec_index_of(id)].1
    }

    /// In a well-formed table the index of a held identifier is the unique
    /// one carrying it.
    pub proof fn lemma_index_of(self, id: u128)
        requires
            self.wf(),
            self.spec_contains(id),
        ensures
            0 <= self.spec_index_of(id) < self.callbacks@.len(),
            self.callbacks@[self.spec_index_of(id)].0 == id,
            forall|i: int|
                0 <= i < self.callbacks@.len() && self.callbacks@[i].0 == id ==> i
                    == self.spec_index_of(id),
    {
    }

    /// A fresh table with nothing pending.
    pub fn new() -> (r: Self)
        ensures
            r.wf(),
            r.callbacks@.len() == 0,
    {
        Self { callbacks: Vec::new() }
    }

    /// The index of the entry under the identifier, if any.
    fn find(&self, id: u128) -> (r: Option<usize>)
        requires
            self.wf(),
        ensures
            r is Some <==> self.spec_contains(id),
            r matches Some(i) ==> i == self.spec_index_of(id),
    {
        let n = self.callbacks.len();
        for i in 0..n
            invariant
                self.wf(),
                n == self.callbacks@.len(),
                forall|j: int| 0 <= j < i ==> self.callbacks@[j].0 != id,
        {
            if self.callbacks[i].0 == id {
                proof {
                    self.lemma_index_of(id);
                }
                return Some(i);
            }
        }
        None
    }

    /// Parks a callback under an identifier. A prior entry under the same
    /// identifier is replaced; entries under other identifiers are untouched.
    pub fn add_callback(&mut self, id: u128, callback: NativeCallback)
        requires
            old(self).wf(),
        ensures
            final(self).wf(),
            final(self).spec_contains(id),
            final(self).spec_at(id) == callback,
            forall|q: u128|
                q != id ==> (final(self).spec_contains(q) <==> old(self).spec_contains(q)),
            forall|q: u128|
                q != id && old(self).spec_contains(q) ==> final(self).spec_at(q) == old(
                    self,
                ).spec_at(q),
    {
        let ghost pre = *self;
        match self.find(id) {
            Some(i) => {
                let _ = self.callbacks.remove(i);
            },
            None => {
            },
        }
        proof {
            if pre.spec_contains(id) {
                pre.lemma_index_of(id);
            }
            assert forall|q: u128| q != id implies (self.spec_contains(q) <==> pre.spec_contains(
                q,
            )) && (self.spec_contains(q) ==> self.spec_at(q) == pre.spec_at(q)) by {
                lemma_table_remove_keeps_others(pre, *self, id, q);
            }
            assert(self.wf()) by {
                lemma_table_remove_keeps_others(pre, *self, id, id);
            }
            assert(!self.spec_contains(id)) by {
                if pre.spec_contains(id) {
                    let idx = pre.spec_index_of(id);
                    assert forall|i: int| 0 <= i < self.callbacks@.len() implies self.callbacks@[
                        i
                    ].0 != id by {
                        if i < idx {
                            assert(self.callbacks@[i] == pre.callbacks@[i]);
                        } else {
                            assert(self.callbacks@[i] == pre.callbacks@[i + 1]);
                        }
                    }
                }
            }
        }
        let ghost mid = *self;
        self.callbacks.push((id, callback));
        proof {
            let n = mid.callbacks@.len() as int;
            assert(self.callbacks@[n] == (id, callback));
            assert(self.wf());
            assert(self.spec_contains(id));
            self.lemma_index_of(id);
            assert forall|q: u128| q != id implies (self.spec_contains(q) <==> mid.spec_contains(
                q,
            )) by {
                if self.spec_contains(q) {
                    self.lemma_index_of(q);
                    let j = self.spec_index_of(q);
                    assert(j != n);
                    assert(mid.callbacks@[j].0 == q);
                }
                if mid.spec_contains(q) {
                    mid.lemma_index_of(q);
                    let j = mid.spec_index_of(q);
                    assert(self.callbacks@[j].0 == q);
                }
            }
            assert forall|q: u128| q != id && mid.spec_contains(q) implies self.spec_at(q)
                == mid.spec_at(q) by {
                mid.lemma_index_of(q);
                let j = mid.spec_index_of(q);
                assert(self.callbacks@[j].0 == q);
                self.lemma_index_of(q);
            }
        }
    }

    /// Takes the callback parked under the identifier out of the table, if
    /// any; entries under other identifiers are untouched.
    pub fn remove_callback(&mut self, id: u128) -> (r: Option<NativeCallback>)
        requires
            old(self).wf(),
        ensures
            final(self).wf(),
            !final(self).spec_contains(id),
            forall|q: u128|
                q != id ==> (final(self).spec_contains(q) <==> old(self).spec_contains(q)),
            forall|q: u128|
                q != id && old(self).spec_contains(q) ==> final(self).spec_at(q) == old(
                    self,
                ).spec_at(q),
            (match r {
                Some(cb) => old(self).spec_contains(id) && cb == old(self).spec_at(id),
                None => !old(self).spec_contains(id),
            }),
            !old(self).spec_contains(id) ==> *final(self) == *old(self),
    {
        let ghost pre = *self;
        let r = match self.find(id) {
            Some(i) => Some(self.callbacks.remove(i).1),
            None => None,
        };
        proof {
            if pre.spec_contains(id) {
                pre.lemma_index_of(id);
                let idx = pre.spec_index_of(id);
                assert forall|i: int| 0 <= i < self.callbacks@.len() implies self.callbacks@[i].0
                    != id by {
                    if i < idx {
                        assert(self.callbacks@[i] == pre.callbacks@[i]);
                    } else {
                        assert(self.callbacks@[i] == pre.callbacks@[i + 1]);
                    }
                }
            }
            assert forall|q: u128| q != id implies (self.spec_contains(q) <==> pre.spec_contains(
                q,
            )) && (pre.spec_contains(q) ==> self.spec_at(q) == pre.spec_at(q)) by {
                lemma_table_remove_keeps_others(pre, *self, id, q);
            }
            assert(self.wf()) by {
                lemma_table_remove_keeps_others(pre, *self, id, id);
            }
        }
        r
    }

    /// A terminal event arrives from the guest for the identifier: the
    /// parked callback, if any, receives it in place — a first event is
    /// recorded, any later one is discarded by the callback itself — and
    /// stays parked until the invocation that parked it collects it. An
    /// unknown identifier is ignored.
    pub fn deliver(&mut self, id: u128, event: CallbackData)
        requires
            old(self).wf(),
        ensures
            final(self).wf(),
            !old(self).spec_contains(id) ==> *final(self) == *old(self),
            old(self).spec_contains(id) ==> {
                &&& final(self).spec_contains(id)
                &&& final(self).spec_at(id) == old(self).spec_at(id).spec_deliver(event)
            },
            forall|q: u128|
                q != id ==> (final(self).spec_contains(q) <==> old(self).spec_contains(q)),
            forall|q: u128|
                q != id && old(self).spec_contains(q) ==> final(self).spec_at(q) == old(
                    self,
                ).spec_at(q),
    {
        let ghost pre = *self;
        match self.find(id) {
            None => {
            },
            Some(i) => {
                proof {
                    pre.lemma_index_of(id);
                }
                self.callbacks[i].1.deliver(event);
                proof {
                    assert(self.callbacks@[i as int].0 == id);
                    assert(self.wf());
                    assert(self.spec_contains(id));
                    self.lemma_index_of(id);
                    assert forall|q: u128| q != id implies (self.spec_contains(q)
                        <==> pre.spec_contains(q)) && (pre.spec_contains(q) ==> self.spec_at(q)
                        == pre.spec_at(q)) by {
                        if pre.spec_contains(q) {
                            pre.lemma_index_of(q);
                            let j = pre.spec_index_of(q);
                            assert(self.callbacks@[j].0 == q);
                            self.lemma_index_of(q);
                        }
                        if self.spec_contains(q) {
                            self.lemma_index_of(q);
                            let j = self.spec_index_of(q);
                            assert(pre.callbacks@[j].0 == q);
                        }
                    }
                }
            },
        }
    }

    /// A successful continuation from the guest: delivered in place to the
    /// callback parked under the identifier, if any.
    pub fn deliver_success(&mut self, id: u128, data: Option<Vec<u8>>)
        requires
            old(self).wf(),
        ensures
            final(self).wf(),
            !old(self).spec_contains(id) ==> *final(self) == *old(self),
            old(self).spec_contains(id) ==> {
                &&& final(self).spec_contains(id)
                &&& final(self).spec_at(id) == old(self).spec_at(id).spec_deliver(
                    CallbackData::Success(CallbackSuccess { data }),
                )
            },
            forall|q: u128|
                q != id ==> (final(self).spec_contains(q) <==> old(self).spec_contains(q)),
            forall|q: u128|
                q != id && old(self).spec_contains(q) ==> final(self).spec_at(q) == old(
                    self,
                ).spec_at(q),
    {
        self.deliver(id, CallbackData::Success(CallbackSuccess { data }));
    }

    /// A failed continuation from the guest: delivered in place to the
    /// callback parked under the identifier, if any.
    pub fn deliver_error(&mut self, id: u128, err: CallbackError)
        requires
            old(self).wf(),
        ensures
            final(self).wf(),
            !old(self).spec_contains(id) ==> *final(self) == *old(self),
            old(self).spec_contains(id) ==> {
                &&& final(self).spec_contains(id)
                &&& final(self).spec_at(id) == old(self).spec_at(id).spec_deliver(
                    CallbackData::Error(err),
                )
            },
            forall|q: u128|
                q != id ==> (final(self).spec_contains(q) <==> old(self).spec_contains(q)),
            forall|q: u128|
                q != id && old(self).spec_contains(q) ==> final(self).spec_at(q) == old(
                    self,
                ).spec_at(q),
    {
        self.deliver(id, CallbackData::Error(err));
    }
}

/// After removing the entry at the index holding `removed` from a well-formed
/// table (or removing nothing when it is absent), containment and content
/// under every other identifier are unchanged and the table stays well
/// formed.
proof fn lemma_table_remove_keeps_others(
    pre: WasmModuleState,
    post: WasmModuleState,
    removed: u128,
    q: u128,
)
    requires
        pre.wf(),
        if pre.spec_contains(removed) {
            post.callbacks@ == pre.callbacks@.remove(pre.spec_index_of(removed))
        } else {
            post.callbacks@ == pre.callbacks@
        },
    ensures
        post.wf(),
        q != removed ==> (post.spec_contains(q) <==> pre.spec_contains(q)),
        q != removed && post.spec_contains(q) ==> post.spec_at(q) == pre.spec_at(q),
{
    if pre.spec_contains(removed) {
        pre.lemma_index_of(removed);
        let idx = pre.spec_index_of(removed);
        assert forall|i: int| 0 <= i < post.callbacks@.len() implies post.callbacks@[i]
            == if i < idx {
            pre.callbacks@[i]
        } else {
            pre.callbacks@[i + 1]
        } by {}
        assert(post.wf());
        if q != removed {
            if pre.spec_contains(q) {
                let j = pre.spec_index_of(q);
                pre.lemma_index_of(q);
                if j < idx {
                    assert(post.callbacks@[j].0 == q);
                } else {
                    assert(post.callbacks@[j - 1].0 == q);
                }
                assert(post.spec_contains(q));
                post.lemma_index_of(q);
                let j2 = post.spec_index_of(q);
                if j2 < idx {
                    assert(pre.callbacks@[j2].0 == q);
                } else {
                    assert(pre.callbacks@[j2 + 1].0 == q);
                }
            }
            if post.spec_contains(q) {
                post.lemma_index_of(q);
                let j2 = post.spec_index_of(q);
                if j2 < idx {
                    assert(pre.callbacks@[j2].0 == q);
                } else {
                    assert(pre.callbacks@[j2 + 1].0 == q);
                }
                assert(pre.spec_contains(q));
            }
        }
    }
}

} // verus!
