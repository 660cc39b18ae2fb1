//! The component contract: the capability set every UI node implements.
//!
//! Each implementor supplies, as spec functions, its own precondition and its
//! own description of what one lifecycle step does; the executable methods
//! are verified against exactly those descriptions. Rendering is data driven:
//! a component exposes the data its renderer needs as plain values, and the
//! embedding binary draws them, so `render` has no place in this contract.

use vstd::prelude::*;
use crate::events::Event;
use crate::store::Store;

verus! {

pub trait Component: Sized {
    /// When the component may be initialized against `store`.
    spec fn init_ready(pre: Self, store: Store) -> bool;

    /// What initialization establishes.
    spec fn inited(pre: Self, post: Self, store: Store) -> bool;

    /// When the component may handle an event against `store`.
    spec fn ready(pre: Self, store: Store) -> bool;

    /// What one handled event does: how the component and the store after the
    /// call relate to those before it, and what the returned "consumed" flag
    /// means.
    spec fn step(
        pre: Self,
        post: Self,
        event: Event,
        pre_store: Store,
        post_store: Store,
        handled: bool,
    ) -> bool;

    /// Called once when the component is first mounted; performs the initial
    /// props-to-local-state derivation, if the component has any.
    fn on_init(&mut self, store: &Store)
        requires
            Self::init_ready(*old(self), *store),
        ensures
            Self::inited(*old(self), *final(self), *store),
    ;

    /// Given one input event and mutable access to the store, optionally
    /// dispatches actions and/or updates local state, and reports whether the
    /// event was consumed. `true` short-circuits further propagation.
    fn handle_event(&mut self, event: Event, store: &mut Store) -> (handled: bool)
        requires
            Self::ready(*old(self), *old(store)),
        ensures
            Self::step(*old(self), *final(self), event, *old(store), *final(store), handled),
    ;
}

} // verus!
