//! A single-slot state container: it owns exactly one current state value
//! and replaces it atomically. A transition consumes the old state and
//! produces exactly one new state, so no state value is ever duplicated or
//! silently dropped.

use vstd::prelude::*;

verus! {

/// Owns one value of the per-role state type `S`.
///
/// The held value is never absent except transiently inside a transition;
/// `holds_state` records that invariant, which `new` establishes and every
/// operation preserves.
#[derive(Debug, PartialEq)]
pub struct StateMachine<S> {
    state: Option<S>,
}

impl<S> StateMachine<S> {
    /// The slot is filled.
    pub closed spec fn holds_state(&self) -> bool {
        self.state is Some
    }

    /// The state the container currently holds.
    pub closed spec fn current(&self) -> S {
        self.state->0
    }

    /// Wraps the initial state.
    pub fn new(state: S) -> (r: StateMachine<S>)
        ensures
            r.holds_state(),
            r.current() == state,
    {
        StateMachine { state: Some(state) }
    }

    /// Atomic transition: consumes the held state, applies `map` to it and
    /// stores the result.
    pub fn replace_state<F: FnOnce(S) -> S>(&mut self, map: F)
        requires
            old(self).holds_state(),
            call_requires(map, (old(self).current(),)),
        ensures
            final(self).holds_state(),
            call_ensures(map, (old(self).current(),), final(self).current()),
    {
        let s = self.take_state();
        self.put_state(map(s));
    }

    /// Consumes the container, returning the held state.
    pub fn into_state(self) -> (s: S)
        requires
            self.holds_state(),
        ensures
            s == self.current(),
    {
        self.state.unwrap()
    }

    /// Removes the held state, leaving the slot transiently empty; the
    /// caller restores the invariant with `put_state`.
    pub(crate) fn take_state(&mut self) -> (s: S)
        requires
            old(self).holds_state(),
        ensures
            s == old(self).current(),
    {
        self.state.take().unwrap()
    }

    /// Fills the slot again after `take_state`.
    pub(crate) fn put_state(&mut self, state: S)
        ensures
            final(self).holds_state(),
            final(self).current() == state,
    {
        self.state = Some(state);
    }

    /// Borrows the held state.
    pub(crate) fn state_ref(&self) -> (r: &S)
        requires
            self.holds_state(),
        ensures
            *r == self.current(),
    {
        self.state.as_ref().unwrap()
    }
}

} // verus!
