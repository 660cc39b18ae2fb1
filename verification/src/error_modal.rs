//! The error-modal component: a transient overlay that displays the message
//! carried by an error descriptor in the global state's modal slot. Mounted
//! and unmounted in lockstep with that descriptor, exactly like the create
//! modal. While mounted it is the sole receiver of input; dismissing it is a
//! state transition (clearing the modal slot), not something the overlay
//! decides itself, so within the engine it consumes keyboard events and
//! dispatches nothing.

use vstd::prelude::*;
use crate::component::Component;
use crate::component_base::ComponentBase;
use crate::events::Event;
use crate::store::Store;

verus! {

/// Props of the error modal: the message to display.
pub struct ErrorModalProps {
    pub message: String,
}

impl ErrorModalProps {
    pub fn new(message: String) -> (r: Self)
        ensures
            r.message == message,
    {
        ErrorModalProps { message }
    }
}

pub struct ErrorModalComponent {
    base: ComponentBase<ErrorModalProps, ()>,
}

impl ErrorModalComponent {
    /// The props, as a mathematical value.
    pub closed spec fn spec_props(&self) -> Option<ErrorModalProps> {
        self.base.spec_props()
    }

    pub fn with_props(props: ErrorModalProps) -> (r: Self)
        ensures
            r.spec_props() == Some(props),
    {
        ErrorModalComponent { base: ComponentBase::new(Some(props), None) }
    }

    /// Read-only access to the props, for the renderer.
    pub fn props(&self) -> (r: &Option<ErrorModalProps>)
        ensures
            *r == self.spec_props(),
    {
        self.base.get_props()
    }
}

impl Component for ErrorModalComponent {
    open spec fn init_ready(pre: Self, store: Store) -> bool {
        true
    }

    /// The modal owns no local state, so initialization changes nothing.
    open spec fn inited(pre: Self, post: Self, store: Store) -> bool {
        post == pre
    }

    open spec fn ready(pre: Self, store: Store) -> bool {
        true
    }

    /// One event: keyboard input is consumed without touching the store or
    /// the component; anything else passes through.
    open spec fn step(
        pre: Self,
        post: Self,
        event: Event,
        pre_store: Store,
        post_store: Store,
        handled: bool,
    ) -> bool {
        &&& post == pre
        &&& post_store == pre_store
        &&& handled == (event is Keyboard)
    }

    fn on_init(&mut self, store: &Store) {
    }

    fn handle_event(&mut self, event: Event, store: &mut Store) -> (handled: bool) {
        match event {
            Event::Keyboard(_) => true,
            Event::Tick => false,
        }
    }
}

} // verus!
