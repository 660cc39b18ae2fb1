//! The props / local-state split, made structural: props are read-only and
//! replaced wholesale when a parent re-derives, local state persists across
//! renders and changes only through the single transform entry point.

use vstd::prelude::*;

verus! {

/// Generic holder separating a component's externally supplied props from its
/// internally owned local state.
pub struct ComponentBase<TProps, TState> {
    props: Option<TProps>,
    local_state: Option<TState>,
}

impl<TProps, TState> ComponentBase<TProps, TState> {
    /// The current props, as a mathematical value.
    pub closed spec fn spec_props(&self) -> Option<TProps> {
        self.props
    }

    /// The current local state, as a mathematical value.
    pub closed spec fn spec_local(&self) -> Option<TState> {
        self.local_state
    }

    pub fn new(props: Option<TProps>, local_state: Option<TState>) -> (r: Self)
        ensures
            r.spec_props() == props,
            r.spec_local() == local_state,
    {
        ComponentBase { props, local_state }
    }

    /// Read-only access to the props.
    pub fn get_props(&self) -> (r: &Option<TProps>)
        ensures
            *r == self.spec_props(),
    {
        &self.props
    }

    /// Read-only access to the local state.
    pub fn get_state(&self) -> (r: &Option<TState>)
        ensures
            *r == self.spec_local(),
    {
        &self.local_state
    }

    /// The single mutation entry point for local state: applies a pure
    /// transform of the current local state and stores its result. Props are
    /// untouched.
    pub fn set_state<F: FnOnce(&Option<TState>) -> TState>(&mut self, transform: F)
        requires
            call_requires(transform, (&old(self).spec_local(),)),
        ensures
            final(self).spec_props() == old(self).spec_props(),
            final(self).spec_local() is Some,
            call_ensures(transform, (&old(self).spec_local(),), final(self).spec_local()->0),
    {
        let next = transform(&self.local_state);
        self.local_state = Some(next);
    }
}

} // verus!
