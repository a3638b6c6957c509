//! Session registry: owns the mapping from raw I/O handles (`Token`) to
//! logical session identifiers (`Context`) and from session identifiers to
//! the behavior value currently responsible for that session, plus the two
//! monotonically increasing allocation counters. No I/O lives here.

use vstd::prelude::*;
use std::collections::HashMap;

verus! {

broadcast use vstd::std_specs::hash::group_hash_axioms;

/// A raw I/O handle: a process-local integer naming one registered I/O
/// resource. Issuance is ordered by the registry's own counter; validity of a
/// handle against the OS poller is the poller's business, not this type's.
#[derive(Clone, Copy, PartialEq, Eq, Hash, Debug, Structural)]
pub struct Token(pub usize);

/// A logical session identifier: unique for the registry's lifetime (up to
/// counter wraparound), naming one session independently of which raw handle
/// currently backs it.
#[derive(Clone, Copy, PartialEq, Eq, PartialOrd, Ord, Hash, Debug, Structural)]
pub struct Context(pub usize);

/// The mathematical state of a registry: both counters and both maps.
pub ghost struct CoreView<S> {
    pub token_counter: usize,
    pub context_counter: usize,
    /// raw handle value -> session bound to it
    pub contexts: Map<usize, Context>,
    /// session identifier value -> behavior attached to it
    pub states: Map<usize, S>,
}

/// The session registry. `S` is the behavior value attached to a session;
/// the registry never looks inside it.
pub struct Core<S> {
    token_counter: usize,
    context_counter: usize,
    contexts: HashMap<usize, Context>,
    states: HashMap<usize, S>,
}

impl<S> View for Core<S> {
    type V = CoreView<S>;

    closed spec fn view(&self) -> CoreView<S> {
        CoreView {
            token_counter: self.token_counter,
            context_counter: self.context_counter,
            contexts: self.contexts@,
            states: self.states@,
        }
    }
}

/// The behavior a readiness notification for `handle` resolves to: the state
/// attached to the session bound to `handle`, if both lookups succeed.
pub open spec fn target_state<S>(v: CoreView<S>, handle: usize) -> Option<S> {
    if v.contexts.contains_key(handle) && v.states.contains_key(v.contexts[handle].0) {
        Some(v.states[v.contexts[handle].0])
    } else {
        None
    }
}

/// The registry invariant of normal operation: every bound handle's session
/// has a behavior attached. The reverse need not hold — a session may exist
/// briefly with no handle during setup — and teardown of one handle of a
/// session that registered interest in several can suspend it until the
/// stale bindings are dropped on their next, silently missing, dispatch.
pub open spec fn consistent<S>(v: CoreView<S>) -> bool {
    forall|h: usize| #[trigger]
        v.contexts.contains_key(h) ==> v.states.contains_key(v.contexts[h].0)
}

/// The successor of an allocation counter: increments, wrapping at the top.
pub open spec fn bumped(counter: usize) -> usize {
    if counter == usize::MAX {
        0
    } else {
        (counter + 1) as usize
    }
}

impl<S> Core<S> {
    /// A fresh registry: counters at zero, both maps empty.
    pub fn new() -> (core: Self)
        ensures
            core@.token_counter == 0,
            core@.context_counter == 0,
            core@.contexts == Map::<usize, Context>::empty(),
            core@.states == Map::<usize, S>::empty(),
    {
        Core {
            token_counter: 0,
            context_counter: 0,
            contexts: HashMap::new(),
            states: HashMap::new(),
        }
    }

    /// Issues a fresh raw handle: the current counter value, after which the
    /// counter advances (wrapping). Never re-synchronized with the OS poller.
    pub fn get_new_token(&mut self) -> (token: Token)
        ensures
            token.0 == old(self)@.token_counter,
            final(self)@ == (CoreView { token_counter: bumped(old(self)@.token_counter), ..old(self)@ }),
    {
        let token_counter = self.token_counter;
        self.token_counter = if token_counter == usize::MAX {
            0
        } else {
            token_counter + 1
        };
        Token(token_counter)
    }

    /// Reads the handle the counter would issue next, without advancing it.
    pub fn get_token(&mut self) -> (token: Token)
        ensures
            token.0 == old(self)@.token_counter,
            final(self)@ == old(self)@,
    {
        Token(self.token_counter)
    }

    /// Issues a fresh session identifier: the current counter value, after
    /// which the counter advances (wrapping).
    pub fn get_new_context(&mut self) -> (context: Context)
        ensures
            context.0 == old(self)@.context_counter,
            final(self)@ == (CoreView {
                context_counter: bumped(old(self)@.context_counter),
                ..old(self)@
            }),
    {
        let context_counter = self.context_counter;
        self.context_counter = if context_counter == usize::MAX {
            0
        } else {
            context_counter + 1
        };
        Context(context_counter)
    }

    /// Records that `key` currently backs session `val`. Last write wins:
    /// any prior binding for that handle is overwritten and returned.
    pub fn insert_context(&mut self, key: Token, val: Context) -> (prior: Option<Context>)
        ensures
            final(self)@ == (CoreView {
                contexts: old(self)@.contexts.insert(key.0, val),
                ..old(self)@
            }),
            match prior {
                Some(c) => old(self)@.contexts.contains_key(key.0) && c == old(
                    self,
                )@.contexts[key.0],
                None => !old(self)@.contexts.contains_key(key.0),
            },
    {
        self.contexts.insert(key.0, val)
    }

    /// Records the behavior responsible for session `key`. Last write wins:
    /// any prior behavior for that session is overwritten and returned.
    pub fn insert_state(&mut self, key: Context, val: S) -> (prior: Option<S>)
        ensures
            final(self)@ == (CoreView {
                states: old(self)@.states.insert(key.0, val),
                ..old(self)@
            }),
            match prior {
                Some(s) => old(self)@.states.contains_key(key.0) && s == old(self)@.states[key.0],
                None => !old(self)@.states.contains_key(key.0),
            },
    {
        self.states.insert(key.0, val)
    }

    /// Removes and returns the session bound to `key`, or nothing if absent.
    pub fn remove_context(&mut self, key: &Token) -> (removed: Option<Context>)
        ensures
            final(self)@ == (CoreView {
                contexts: old(self)@.contexts.remove(key.0),
                ..old(self)@
            }),
            match removed {
                Some(c) => old(self)@.contexts.contains_key(key.0) && c == old(
                    self,
                )@.contexts[key.0],
                None => !old(self)@.contexts.contains_key(key.0),
            },
    {
        self.contexts.remove(&key.0)
    }

    /// Removes and returns the behavior attached to `key`, or nothing if
    /// absent.
    pub fn remove_state(&mut self, key: &Context) -> (removed: Option<S>)
        ensures
            final(self)@ == (CoreView {
                states: old(self)@.states.remove(key.0),
                ..old(self)@
            }),
            match removed {
                Some(s) => old(self)@.states.contains_key(key.0) && s == old(self)@.states[key.0],
                None => !old(self)@.states.contains_key(key.0),
            },
    {
        self.states.remove(&key.0)
    }

    /// Read-only lookup of the session bound to `key`; absence is not an
    /// error.
    pub fn get_context(&self, key: &Token) -> (r: Option<&Context>)
        ensures
            match r {
                Some(c) => self@.contexts.contains_key(key.0) && *c == self@.contexts[key.0],
                None => !self@.contexts.contains_key(key.0),
            },
    {
        self.contexts.get(&key.0)
    }

    /// Read-only lookup of the behavior attached to `key`; absence is not an
    /// error.
    pub fn get_state(&self, key: &Context) -> (r: Option<&S>)
        ensures
            match r {
                Some(s) => self@.states.contains_key(key.0) && *s == self@.states[key.0],
                None => !self@.states.contains_key(key.0),
            },
    {
        self.states.get(&key.0)
    }

    /// Resolves a readiness notification for `token` to the behavior that
    /// should handle it: handle -> session -> behavior. If either lookup
    /// misses the notification is to be dropped silently — the session is
    /// already gone, an expected race, not an error.
    pub fn ready_state(&self, token: &Token) -> (r: Option<&S>)
        ensures
            match r {
                Some(s) => target_state(self@, token.0) == Some(*s),
                None => target_state(self@, token.0) is None,
            },
    {
        match self.contexts.get(&token.0) {
            Some(context) => self.states.get(&context.0),
            None => None,
        }
    }

    /// Tears a session down by its handle: unbinds the handle and, when it
    /// was bound, detaches and returns the bound session's behavior.
    pub fn remove_session(&mut self, token: &Token) -> (r: Option<S>)
        ensures
            final(self)@.token_counter == old(self)@.token_counter,
            final(self)@.context_counter == old(self)@.context_counter,
            final(self)@.contexts == old(self)@.contexts.remove(token.0),
            old(self)@.contexts.contains_key(token.0) ==> final(self)@.states == old(
                self,
            )@.states.remove(old(self)@.contexts[token.0].0),
            !old(self)@.contexts.contains_key(token.0) ==> final(self)@.states == old(
                self,
            )@.states,
            r == target_state(old(self)@, token.0),
    {
        match self.remove_context(token) {
            Some(context) => self.remove_state(&context),
            None => None,
        }
    }
}

/// Law: a handle/session pair removed from the registry is never dispatched
/// to again. Once the handle's binding is gone from the registry's view, the
/// dispatch lookup misses and short-circuits without resolving any behavior.
pub proof fn lemma_removed_handle_never_dispatched<S>(v: CoreView<S>, token: Token)
    ensures
        target_state(
            CoreView { contexts: v.contexts.remove(token.0), ..v },
            token.0,
        ) is None,
{
}

/// Law: in a consistent registry a bound handle never misses — dispatch for
/// it always resolves to the behavior of the session it is bound to.
pub proof fn lemma_consistent_bound_handle_dispatches<S>(v: CoreView<S>, token: Token)
    requires
        consistent(v),
        v.contexts.contains_key(token.0),
    ensures
        target_state(v, token.0) == Some(v.states[v.contexts[token.0].0]),
{
}

/// Law: the construction protocol keeps the registry consistent. Binding a
/// handle to a session and attaching that session's behavior, as one setup
/// sequence, preserves the invariant whatever order the two inserts take.
pub proof fn lemma_setup_preserves_consistency<S>(
    v: CoreView<S>,
    token: Token,
    context: Context,
    behavior: S,
)
    requires
        consistent(v),
    ensures
        consistent(
            CoreView {
                contexts: v.contexts.insert(token.0, context),
                states: v.states.insert(context.0, behavior),
                ..v
            },
        ),
{
}

/// Law: allocating two session identifiers in sequence yields distinct,
/// strictly increasing values, as long as the counter has not wrapped; the
/// same counter discipline governs handles. The first allocation returns the
/// counter itself and the second returns its successor.
pub proof fn lemma_sequential_allocations_increase(counter: usize)
    requires
        counter < usize::MAX,
    ensures
        counter < bumped(counter),
        counter != bumped(counter),
{
}

} // verus!
