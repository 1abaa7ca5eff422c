//! The registry: a map of modules keyed by package name, a running flag, and
//! the dispatch of `invoke` requests.
//!
//! The shared state is a plain value here; the shell that runs workers wraps
//! it in its own locks and drives one module `run` per worker. Package names
//! are unique keys: registering a present name replaces the prior entry,
//! which is handed back to the caller for destruction. Dispatch to an absent
//! package is not a return error but a `ModuleNotFound` callback error.

use vstd::prelude::*;
use crate::callback::{CallbackData, CallbackError, NativeCallback};
use crate::errors::Error;
use crate::module::NativeModule;

verus! {

/// A registered module: the module itself, the call chain its derived
/// registry handle starts with, and its lifecycle bookkeeping — how many
/// dispatched invocations have not yet delivered their terminal event, and
/// whether its destroy hook has run.
pub struct RegistryModule {
    pub module: NativeModule,
    pub call_chain: Vec<String>,
    pub in_flight: usize,
    pub destroyed: bool,
}

impl RegistryModule {
    /// A module may be destroyed only once, and only after every in-flight
    /// invocation naming it has delivered its terminal event.
    pub open spec fn spec_can_destroy(self) -> bool {
        !self.destroyed && self.in_flight == 0
    }

    /// Runs the module's destroy hook: allowed exactly once, and only after
    /// all in-flight invocations have drained.
    pub fn destroy(&mut self)
        requires
            old(self).spec_can_destroy(),
        ensures
            final(self).destroyed,
            final(self).module == old(self).module,
            final(self).call_chain == old(self).call_chain,
            final(self).in_flight == 0,
    {
        self.destroyed = true;
    }

    /// One of this module's in-flight invocations delivered its terminal
    /// event.
    pub fn invocation_done(&mut self)
        requires
            old(self).in_flight > 0,
        ensures
            final(self).in_flight == old(self).in_flight - 1,
            final(self).module == old(self).module,
            final(self).call_chain == old(self).call_chain,
            final(self).destroyed == old(self).destroyed,
    {
        self.in_flight = self.in_flight - 1;
    }
}

/// What the registry hands to the worker that performs a dispatched call:
/// the target module's opaque instance handle, the decoded method, the
/// payload, and the call chain visible to the callee.
pub struct InvocationContext {
    pub instance: u64,
    pub method: String,
    pub data: Option<Vec<u8>>,
    pub call_chain: Vec<String>,
}

/// The `"package:method"` descriptor pushed onto the call chain by a
/// dispatch.
pub open spec fn spec_call_desc(package: Seq<char>, method: Seq<char>) -> Seq<char> {
    package + seq![':'] + method
}

/// The description of the error synthesized when a dispatch names an absent
/// package.
pub open spec fn spec_not_found_description(package: Seq<char>) -> Seq<char> {
    "Module \""@ + package + "\" not found"@
}

/// The callback error synthesized when a dispatch names an absent package:
/// `ModuleNotFound`, its tag, a description naming the package, no payload.
pub open spec fn spec_module_not_found_error(e: CallbackError, package: Seq<char>) -> bool {
    &&& e.code == Error::ModuleNotFound.spec_code()
    &&& e.err_name matches Some(n) && n@ == Error::ModuleNotFound.spec_name()
    &&& e.description matches Some(d) && d@ == spec_not_found_description(package)
    &&& e.data is None
}

/// The registry: modules keyed by their unique package name, the flag that
/// guards `run` against re-entry, and the call chain of this handle.
pub struct Modular {
    pub modules: Vec<RegistryModule>,
    pub is_running: bool,
    pub call_chain: Vec<String>,
}

impl Modular {
    /// Package names are unique: no two entries share one.
    pub open spec fn wf(self) -> bool {
        forall|i: int, j: int|
            0 <= i < j < self.modules@.len() ==> self.modules@[i].module.package@
                != self.modules@[j].module.package@
    }

    /// Whether some entry holds the given package name.
    pub open spec fn spec_contains(self, package: Seq<char>) -> bool {
        exists|i: int|
            0 <= i < self.modules@.len() && self.modules@[i].module.package@ == package
    }

    /// The index of the entry holding the given package name.
    pub open spec fn spec_index_of(self, package: Seq<char>) -> int {
        choose|i: int|
            0 <= i < self.modules@.len() && self.modules@[i].module.package@ == package
    }

    /// The entry holding the given package name.
    pub open spec fn spec_at(self, package: Seq<char>) -> RegistryModule {
        self.modules@[self.spec_index_of(package)]
    }

    /// In a well-formed registry the index of a held package is the unique
    /// one carrying it.
    pub proof fn lemma_index_of(self, package: Seq<char>)
        requires
            self.wf(),
            self.spec_contains(package),
        ensures
            0 <= self.spec_index_of(package) < self.modules@.len(),
            self.modules@[self.spec_index_of(package)].module.package@ == package,
            forall|i: int|
                0 <= i < self.modules@.len() && self.modules@[i].module.package@ == package
                    ==> i == self.spec_index_of(package),
    {
    }

    /// A fresh registry: no modules, not running, an empty call chain.
    pub fn new() -> (r: Self)
        ensures
            r.wf(),
            r.modules@.len() == 0,
            !r.is_running,
            r.call_chain@.len() == 0,
    {
        Self { modules: Vec::new(), is_running: false, call_chain: Vec::new() }
    }
}

impl Default for Modular {
    /// The default registry is the fresh one.
    fn default() -> (r: Self)
        ensures
            r.wf(),
            r.modules@.len() == 0,
            !r.is_running,
            r.call_chain@.len() == 0,
    {
        Self::new()
    }
}

impl Modular {
    /// The chain of `"package:method"` descriptors by which control reached
    /// this handle. Read-only, for diagnostic consumers.
    pub fn call_chain(&self) -> (r: &Vec<String>)
        ensures
            r == &self.call_chain,
    {
        &self.call_chain
    }

    /// The first descriptor of the call chain, if any: the root caller.
    pub fn root_caller(&self) -> (r: Option<&String>)
        ensures
            self.call_chain@.len() == 0 ==> r is None,
            self.call_chain@.len() > 0 ==> r == Some(&self.call_chain@[0]),
    {
        if self.call_chain.len() > 0 {
            Some(&self.call_chain[0])
        } else {
            None
        }
    }

    /// The call chain a module registered on this handle starts with: this
    /// handle's chain with the module's package name pushed.
    fn derived_chain(&self, package: &String) -> (r: Vec<String>)
        ensures
            r@ == self.call_chain@.push(*package),
    {
        let mut chain: Vec<String> = Vec::new();
        let n = self.call_chain.len();
        for i in 0..n
            invariant
                n == self.call_chain@.len(),
                chain@ == self.call_chain@.take(i as int),
        {
            chain.push(self.call_chain[i].clone());
            proof {
                assert(chain@ =~= self.call_chain@.take(i as int + 1));
            }
        }
        proof {
            assert(self.call_chain@.take(n as int) =~= self.call_chain@);
        }
        chain.push(package.clone());
        chain
    }

    /// The index of the entry holding the package, if any.
    fn find(&self, package: &String) -> (r: Option<usize>)
        requires
            self.wf(),
        ensures
            r is Some <==> self.spec_contains(package@),
            r matches Some(i) ==> i == self.spec_index_of(package@),
    {
        let n = self.modules.len();
        for i in 0..n
            invariant
                self.wf(),
                n == self.modules@.len(),
                forall|j: int| 0 <= j < i ==> self.modules@[j].module.package@ != package@,
        {
            if self.modules[i].module.package == *package {
                proof {
                    self.lemma_index_of(package@);
                }
                return Some(i);
            }
        }
        None
    }

    /// Registers a module under its package name. A prior entry under the
    /// same name is removed and handed back, to be destroyed once no other
    /// holder references it; the new entry starts with a derived call chain
    /// and no invocation in flight. Entries under other names are untouched.
    pub fn register_module(&mut self, module: NativeModule) -> (r: Option<RegistryModule>)
        requires
            old(self).wf(),
        ensures
            final(self).wf(),
            final(self).spec_contains(module.package@),
            final(self).spec_at(module.package@).module == module,
            final(self).spec_at(module.package@).call_chain@ == old(self).call_chain@.push(
                module.package,
            ),
            final(self).spec_at(module.package@).in_flight == 0,
            !final(self).spec_at(module.package@).destroyed,
            forall|q: Seq<char>|
                q != module.package@ ==> (final(self).spec_contains(q) <==> old(
                    self,
                ).spec_contains(q)),
            forall|q: Seq<char>|
                q != module.package@ && old(self).spec_contains(q) ==> final(self).spec_at(q)
                    == old(self).spec_at(q),
            (match r {
                Some(prior) => old(self).spec_contains(module.package@) && prior == old(
                    self,
                ).spec_at(module.package@),
                None => !old(self).spec_contains(module.package@),
            }),
            final(self).is_running == old(self).is_running,
            final(self).call_chain == old(self).call_chain,
    {
        let ghost pre = *self;
        let chain = self.derived_chain(&module.package);
        let prior_index = self.find(&module.package);
        let prior = match prior_index {
            Some(i) => Some(self.modules.remove(i)),
            None => None,
        };
        proof {
            if pre.spec_contains(module.package@) {
                pre.lemma_index_of(module.package@);
            }
            assert forall|q: Seq<char>| q != module.package@ implies (self.spec_contains(q)
                <==> pre.spec_contains(q)) by {
                lemma_remove_keeps_others(pre, *self, module.package@, q);
            }
        }
        let ghost mid = *self;
        let entry = RegistryModule { module, call_chain: chain, in_flight: 0, destroyed: false };
        self.modules.push(entry);
        proof {
            lemma_push_entry(mid, *self, entry, pre);
        }
        prior
    }

    /// Removes the entry under the package name, if present, and hands it
    /// back so its destruction can be triggered; an absent name is a no-op,
    /// not an error. Entries under other names are untouched.
    pub fn deregister_module(&mut self, package: &String) -> (r: Option<RegistryModule>)
        requires
            old(self).wf(),
        ensures
            final(self).wf(),
            !final(self).spec_contains(package@),
            forall|q: Seq<char>|
                q != package@ ==> (final(self).spec_contains(q) <==> old(self).spec_contains(
                    q,
                )),
            forall|q: Seq<char>|
                q != package@ && old(self).spec_contains(q) ==> final(self).spec_at(q) == old(
                    self,
                ).spec_at(q),
            (match r {
                Some(entry) => old(self).spec_contains(package@) && entry == old(self).spec_at(
                    package@,
                ),
                None => !old(self).spec_contains(package@),
            }),
            final(self).is_running == old(self).is_running,
            final(self).call_chain == old(self).call_chain,
    {
        let ghost pre = *self;
        let r = match self.find(package) {
            Some(i) => Some(self.modules.remove(i)),
            None => None,
        };
        proof {
            if pre.spec_contains(package@) {
                pre.lemma_index_of(package@);
                assert(!self.spec_contains(package@)) by {
                    let idx = pre.spec_index_of(package@);
                    assert forall|i: int|
                        0 <= i < self.modules@.len() implies self.modules@[i].module.package@
                        != package@ by {
                        if i < idx {
                            assert(self.modules@[i] == pre.modules@[i]);
                        } else {
                            assert(self.modules@[i] == pre.modules@[i + 1]);
                        }
                    }
                }
            }
            assert forall|q: Seq<char>| q != package@ implies (self.spec_contains(q)
                <==> pre.spec_contains(q)) by {
                lemma_remove_keeps_others(pre, *self, package@, q);
            }
            assert forall|q: Seq<char>|
                q != package@ && pre.spec_contains(q) implies self.spec_at(q) == pre.spec_at(
                q,
            ) by {
                lemma_remove_keeps_others(pre, *self, package@, q);
            }
        }
        r
    }

    /// Guards the run of all modules: re-entry while a run is underway fails
    /// with `RegistryAlreadyRunning`; otherwise the registry is marked
    /// running and the caller receives a snapshot of the instance handles of
    /// the modules registered at this moment, one worker each. Modules
    /// registered later are not part of this run.
    pub fn run(&mut self) -> (r: Result<Vec<u64>, Error>)
        requires
            old(self).wf(),
        ensures
            final(self).wf(),
            r is Err <==> old(self).is_running,
            r matches Err(e) ==> e == Error::RegistryAlreadyRunning && *final(self) == *old(
                self,
            ),
            r matches Ok(v) ==> {
                &&& final(self).is_running
                &&& final(self).modules == old(self).modules
                &&& final(self).call_chain == old(self).call_chain
                &&& v@.len() == old(self).modules@.len()
                &&& forall|i: int|
                    0 <= i < v@.len() ==> v@[i] == old(self).modules@[i].module.instance
            },
    {
        if self.is_running {
            return Err(Error::RegistryAlreadyRunning);
        }
        self.is_running = true;
        let mut handles: Vec<u64> = Vec::new();
        let n = self.modules.len();
        for i in 0..n
            invariant
                n == self.modules@.len(),
                handles@.len() == i,
                forall|j: int| 0 <= j < i ==> handles@[j] == self.modules@[j].module.instance,
        {
            handles.push(self.modules[i].module.instance);
        }
        Ok(handles)
    }

    /// Marks the run as finished: the registry accepts `run` again.
    pub fn run_finished(&mut self)
        ensures
            !final(self).is_running,
            final(self).modules == old(self).modules,
            final(self).call_chain == old(self).call_chain,
    {
        self.is_running = false;
    }

    /// Dispatches an invocation. An absent package synthesizes
    /// `ModuleNotFound` on the callback and dispatches nothing. A present
    /// one is charged with one more in-flight invocation — it stays alive
    /// until that delivers — and the caller receives the context to perform
    /// the call: the module's instance handle, the method, the payload, and
    /// the callee-visible call chain extended by `"package:method"`. The
    /// callback is left untouched for the performed call to fire.
    pub fn invoke(
        &mut self,
        package: &String,
        method: &String,
        data: Option<Vec<u8>>,
        callback: &mut NativeCallback,
    ) -> (r: Option<InvocationContext>)
        requires
            old(self).wf(),
            old(callback).spec_armed(),
            old(self).spec_contains(package@) ==> old(self).spec_at(package@).in_flight
                < usize::MAX,
        ensures
            final(self).wf(),
            r is Some <==> old(self).spec_contains(package@),
            !old(self).spec_contains(package@) ==> {
                &&& *final(self) == *old(self)
                &&& final(callback).spec_delivered() matches Some(CallbackData::Error(e))
                    && spec_module_not_found_error(e, package@)
            },
            old(self).spec_contains(package@) ==> {
                &&& *final(callback) == *old(callback)
                &&& (r matches Some(ctx) && {
                    &&& ctx.instance == old(self).spec_at(package@).module.instance
                    &&& ctx.method@ == method@
                    &&& ctx.data == data
                    &&& ctx.call_chain.deep_view() == old(self).spec_at(
                        package@,
                    ).call_chain.deep_view().push(spec_call_desc(package@, method@))
                })
                &&& final(self).spec_contains(package@)
                &&& final(self).spec_at(package@).in_flight == old(self).spec_at(
                    package@,
                ).in_flight + 1
                &&& final(self).spec_at(package@).module == old(self).spec_at(package@).module
                &&& final(self).spec_at(package@).call_chain == old(self).spec_at(
                    package@,
                ).call_chain
                &&& final(self).spec_at(package@).destroyed == old(self).spec_at(
                    package@,
                ).destroyed
                &&& forall|q: Seq<char>|
                    q != package@ ==> (final(self).spec_contains(q) <==> old(
                        self,
                    ).spec_contains(q))
                &&& forall|q: Seq<char>|
                    q != package@ && old(self).spec_contains(q) ==> final(self).spec_at(q)
                        == old(self).spec_at(q)
            },
            final(self).is_running == old(self).is_running,
            final(self).call_chain == old(self).call_chain,
    {
        let ghost pre = *self;
        let found = self.find(package);
        match found {
            None => {
                let mut description = String::from_str("Module \"");
                description.append(package.as_str());
                description.append("\" not found");
                callback.fire_error(
                    CallbackError {
                        code: Error::ModuleNotFound.code(),
                        err_name: Some(String::from_str(Error::ModuleNotFound.as_ref())),
                        description: Some(description),
                        data: None,
                    },
                );
                None
            },
            Some(i) => {
                proof {
                    pre.lemma_index_of(package@);
                }
                let mut desc = package.clone();
                desc.append(":");
                desc.append(method.as_str());
                proof {
                    reveal_strlit(":");
                    assert(desc@ =~= spec_call_desc(package@, method@));
                }
                let instance = self.modules[i].module.instance;
                let mut chain: Vec<String> = Vec::new();
                let m = self.modules[i].call_chain.len();
                for k in 0..m
                    invariant
                        0 <= i < self.modules@.len(),
                        m == self.modules@[i as int].call_chain@.len(),
                        chain@ == self.modules@[i as int].call_chain@.take(k as int),
                    decreases m - k,
                {
                    chain.push(self.modules[i].call_chain[k].clone());
                    proof {
                        assert(chain@ =~= self.modules@[i as int].call_chain@.take(
                            k as int + 1,
                        ));
                    }
                }
                proof {
                    assert(self.modules@[i as int].call_chain@.take(m as int) =~= self.modules@[
                        i as int
                    ].call_chain@);
                }
                chain.push(desc);
                proof {
                    assert(chain.deep_view() =~~= pre.spec_at(
                        package@,
                    ).call_chain.deep_view().push(spec_call_desc(package@, method@)));
                }
                let in_flight = self.modules[i].in_flight;
                self.modules[i].in_flight = in_flight + 1;
                proof {
                    assert(self.modules@.len() == pre.modules@.len());
                    assert(forall|j: int|
                        0 <= j < self.modules@.len() && j != i ==> self.modules@[j]
                            == pre.modules@[j]);
                    assert(self.modules@[i as int].module == pre.modules@[i as int].module);
                    assert(self.wf());
                    self.lemma_index_of(package@);
                    assert forall|q: Seq<char>| q != package@ implies (self.spec_contains(q)
                        <==> pre.spec_contains(q)) by {
                        lemma_same_len_update_keeps_others(pre, *self, i as int, q);
                    }
                    assert forall|q: Seq<char>|
                        q != package@ && pre.spec_contains(q) implies self.spec_at(q)
                        == pre.spec_at(q) by {
                        lemma_same_len_update_keeps_others(pre, *self, i as int, q);
                    }
                }
                Some(
                    InvocationContext {
                        instance,
                        method: method.clone(),
                        data,
                        call_chain: chain,
                    },
                )
            },
        }
    }

    /// An invocation dispatched to the package delivered its terminal event:
    /// the module's in-flight count drops by one. An entry that was
    /// deregistered meanwhile is the holder's to account for; an absent name
    /// changes nothing.
    pub fn invocation_done(&mut self, package: &String)
        requires
            old(self).wf(),
        ensures
            final(self).wf(),
            !old(self).spec_contains(package@) ==> *final(self) == *old(self),
            old(self).spec_contains(package@) && old(self).spec_at(package@).in_flight > 0 ==> {
                &&& final(self).spec_contains(package@)
                &&& final(self).spec_at(package@).in_flight == old(self).spec_at(
                    package@,
                ).in_flight - 1
                &&& final(self).spec_at(package@).module == old(self).spec_at(package@).module
                &&& forall|q: Seq<char>|
                    q != package@ ==> (final(self).spec_contains(q) <==> old(
                        self,
                    ).spec_contains(q))
                &&& forall|q: Seq<char>|
                    q != package@ && old(self).spec_contains(q) ==> final(self).spec_at(q)
                        == old(self).spec_at(q)
            },
            final(self).is_running == old(self).is_running,
            final(self).call_chain == old(self).call_chain,
    {
        let ghost pre = *self;
        match self.find(package) {
            None => {
            },
            Some(i) => {
                proof {
                    pre.lemma_index_of(package@);
                }
                let in_flight = self.modules[i].in_flight;
                if in_flight > 0 {
                    self.modules[i].in_flight = in_flight - 1;
                    proof {
                        assert(self.modules@[i as int].module.package@ == package@);
                        assert(self.wf());
                        assert(self.spec_contains(package@));
                        self.lemma_index_of(package@);
                        assert forall|q: Seq<char>| q != package@ implies (self.spec_contains(
                            q,
                        ) <==> pre.spec_contains(q)) by {
                            lemma_same_len_update_keeps_others(pre, *self, i as int, q);
                        }
                        assert forall|q: Seq<char>|
                            q != package@ && pre.spec_contains(q) implies self.spec_at(q)
                            == pre.spec_at(q) by {
                            lemma_same_len_update_keeps_others(pre, *self, i as int, q);
                        }
                    }
                }
            },
        }
    }
}

/// After removing the entry at the index holding `removed` from a
/// well-formed registry, containment and content under every other package
/// name are unchanged.
proof fn lemma_remove_keeps_others(pre: Modular, post: Modular, removed: Seq<char>, q: Seq<char>)
    requires
        pre.wf(),
        q != removed,
        if pre.spec_contains(removed) {
            post.modules@ == pre.modules@.remove(pre.spec_index_of(removed))
        } else {
            post.modules@ == pre.modules@
        },
    ensures
        post.spec_contains(q) <==> pre.spec_contains(q),
        post.spec_contains(q) ==> post.spec_at(q) == pre.spec_at(q),
        post.wf(),
{
    if pre.spec_contains(removed) {
        pre.lemma_index_of(removed);
        let idx = pre.spec_index_of(removed);
        assert forall|i: int| 0 <= i < post.modules@.len() implies post.modules@[i]
            == if i < idx {
            pre.modules@[i]
        } else {
            pre.modules@[i + 1]
        } by {}
        assert(post.wf());
        if pre.spec_contains(q) {
            let j = pre.spec_index_of(q);
            pre.lemma_index_of(q);
            if j < idx {
                assert(post.modules@[j].module.package@ == q);
            } else {
                assert(post.modules@[j - 1].module.package@ == q);
            }
            assert(post.spec_contains(q));
            post.lemma_index_of(q);
            let j2 = post.spec_index_of(q);
            if j2 < idx {
                assert(pre.modules@[j2].module.package@ == q);
                assert(j2 == j);
            } else {
                assert(pre.modules@[j2 + 1].module.package@ == q);
                assert(j2 + 1 == j);
            }
        }
        if post.spec_contains(q) {
            post.lemma_index_of(q);
            let j2 = post.spec_index_of(q);
            if j2 < idx {
                assert(pre.modules@[j2].module.package@ == q);
            } else {
                assert(pre.modules@[j2 + 1].module.package@ == q);
            }
            assert(pre.spec_contains(q));
        }
    }
}

/// After appending a fresh entry to a registry that no longer holds its
/// package name, the registry is well formed, holds the entry under that
/// name, and containment and content under every other name are unchanged
/// from before the original removal.
proof fn lemma_push_entry(mid: Modular, post: Modular, entry: RegistryModule, pre: Modular)
    requires
        mid.wf(),
        !mid.spec_contains(entry.module.package@),
        post.modules@ == mid.modules@.push(entry),
        pre.wf(),
        forall|q: Seq<char>|
            q != entry.module.package@ ==> (mid.spec_contains(q) <==> pre.spec_contains(q)),
        forall|q: Seq<char>|
            q != entry.module.package@ && mid.spec_contains(q) ==> mid.spec_at(q) == pre.spec_at(
                q,
            ),
    ensures
        post.wf(),
        post.spec_contains(entry.module.package@),
        post.spec_at(entry.module.package@) == entry,
        forall|q: Seq<char>|
            q != entry.module.package@ ==> (post.spec_contains(q) <==> pre.spec_contains(q)),
        forall|q: Seq<char>|
            q != entry.module.package@ && pre.spec_contains(q) ==> post.spec_at(q) == pre.spec_at(
                q,
            ),
{
    let n = mid.modules@.len() as int;
    assert(post.modules@[n] == entry);
    assert(post.wf());
    assert(post.spec_contains(entry.module.package@));
    post.lemma_index_of(entry.module.package@);
    assert forall|q: Seq<char>| q != entry.module.package@ implies (post.spec_contains(q)
        <==> mid.spec_contains(q)) by {
        if post.spec_contains(q) {
            post.lemma_index_of(q);
            let j = post.spec_index_of(q);
            assert(j != n);
            assert(mid.modules@[j].module.package@ == q);
        }
        if mid.spec_contains(q) {
            mid.lemma_index_of(q);
            let j = mid.spec_index_of(q);
            assert(post.modules@[j].module.package@ == q);
        }
    }
    assert forall|q: Seq<char>|
        q != entry.module.package@ && mid.spec_contains(q) implies post.spec_at(q)
        == mid.spec_at(q) by {
        mid.lemma_index_of(q);
        let j = mid.spec_index_of(q);
        assert(post.modules@[j].module.package@ == q);
        post.lemma_index_of(q);
    }
}

/// Updating the entry at one index of a well-formed registry, keeping its
/// package name and length, leaves containment everywhere and content under
/// every other name unchanged.
proof fn lemma_same_len_update_keeps_others(pre: Modular, post: Modular, idx: int, q: Seq<char>)
    requires
        pre.wf(),
        0 <= idx < pre.modules@.len(),
        post.modules@.len() == pre.modules@.len(),
        post.modules@[idx].module.package@ == pre.modules@[idx].module.package@,
        forall|j: int| 0 <= j < pre.modules@.len() && j != idx ==> post.modules@[j] == pre.modules@[j],
        q != pre.modules@[idx].module.package@,
    ensures
        post.spec_contains(q) <==> pre.spec_contains(q),
        pre.spec_contains(q) ==> post.spec_at(q) == pre.spec_at(q),
{
    assert(post.wf());
    if pre.spec_contains(q) {
        pre.lemma_index_of(q);
        let j = pre.spec_index_of(q);
        assert(j != idx);
        assert(post.modules@[j].module.package@ == q);
        assert(post.spec_contains(q));
        post.lemma_index_of(q);
    }
    if post.spec_contains(q) {
        post.lemma_index_of(q);
        let j = post.spec_index_of(q);
        assert(j != idx);
        assert(pre.modules@[j].module.package@ == q);
    }
}

/// Destruction discipline: the lifecycle admits `destroy` only on a module
/// that was never destroyed and has no invocation in flight, and once the
/// hook has run it is never admissible again — so `destroy` runs exactly
/// once, strictly after every dispatched invocation has delivered its
/// terminal event.
pub proof fn lemma_destroy_once_after_drain(before: RegistryModule, after: RegistryModule)
    requires
        before.spec_can_destroy(),
        after == (RegistryModule { destroyed: true, ..before }),
    ensures
        !before.destroyed,
        before.in_flight == 0,
        !after.spec_can_destroy(),
{
}

/// At most one module per package name: in a well-formed registry any two
/// entries carrying the same package name are the same entry.
pub proof fn lemma_package_unique(m: Modular, i: int, j: int)
    requires
        m.wf(),
        0 <= i < m.modules@.len(),
        0 <= j < m.modules@.len(),
        m.modules@[i].module.package@ == m.modules@[j].module.package@,
    ensures
        i == j,
{
}

} // verus!
