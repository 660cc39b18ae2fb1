//! The create-modal component: a transient overlay constructed and destroyed
//! in lockstep with the modal slot of the global state. While mounted it is
//! the sole receiver of input; the concrete creation dialog (text entry,
//! confirmation) is a collaborator outside this engine, so within the engine
//! the modal consumes keyboard events, passes other events back unhandled,
//! and dispatches nothing.

use vstd::prelude::*;
use crate::actions::PanelSide;
use crate::component::Component;
use crate::component_base::ComponentBase;
use crate::events::Event;
use crate::store::Store;

verus! {

/// Props of the create modal: which panel requested it, which of its tabs,
/// and that tab's directory path.
pub struct CreateModalProps {
    pub panel_side: PanelSide,
    pub panel_tab: usize,
    pub panel_tab_path: String,
}

impl CreateModalProps {
    pub fn new(panel_side: PanelSide, panel_tab: usize, panel_tab_path: String) -> (r: Self)
        ensures
            r.panel_side == panel_side,
            r.panel_tab == panel_tab,
            r.panel_tab_path == panel_tab_path,
    {
        CreateModalProps { panel_side, panel_tab, panel_tab_path }
    }
}

pub struct CreateModalComponent {
    base: ComponentBase<CreateModalProps, ()>,
}

impl CreateModalComponent {
    /// The props, as a mathematical value.
    pub closed spec fn spec_props(&self) -> Option<CreateModalProps> {
        self.base.spec_props()
    }

    pub fn with_props(props: CreateModalProps) -> (r: Self)
        ensures
            r.spec_props() == Some(props),
    {
        CreateModalComponent { base: ComponentBase::new(Some(props), None) }
    }

    /// Read-only access to the props, for the renderer.
    pub fn props(&self) -> (r: &Option<CreateModalProps>)
        ensures
            *r == self.spec_props(),
    {
        self.base.get_props()
    }
}

impl Component for CreateModalComponent {
    open spec fn init_ready(pre: Self, store: Store) -> bool {
        true
    }

    /// The modal owns no local state, so initialization changes nothing.
    open spec fn inited(pre: Self, post: Self, store: Store) -> bool {
        post == pre
    }

    open spec fn ready(pre: Self, store: Store) -> bool {
        true
    }

    /// One event: keyboard input is consumed without touching the store or
    /// the component; anything else passes through.
    open spec fn step(
        pre: Self,
        post: Self,
        event: Event,
        pre_store: Store,
        post_store: Store,
        handled: bool,
    ) -> bool {
        &&& post == pre
        &&& post_store == pre_store
        &&& handled == (event is Keyboard)
    }

    fn on_init(&mut self, store: &Store) {
    }

    fn handle_event(&mut self, event: Event, store: &mut Store) -> (handled: bool) {
        match event {
            Event::Keyboard(_) => true,
            Event::Tick => false,
        }
    }
}

} // verus!
