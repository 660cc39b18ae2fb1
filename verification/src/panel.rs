//! The panel component: one side of the file manager. It derives its props
//! and its tab child from the corresponding panel slice of the global state,
//! and delegates event handling to the tab.

use vstd::prelude::*;
use crate::actions::{FileManagerActions, PanelSide};
use crate::component::Component;
use crate::component_base::ComponentBase;
use crate::events::Event;
use crate::state::{panel_wf, tab_eq, tab_wf, AppState, PanelState};
use crate::store::{spec_reduced, Store};
use crate::tab::{
    spec_tab_action, spec_tab_handled, tab_props_ready, TabComponent, TabComponentProps,
};

verus! {

/// Props of a panel component: its side and whether it holds focus.
#[derive(Clone, Copy, PartialEq, Eq, Structural, Debug)]
pub struct PanelComponentProps {
    pub side: PanelSide,
    pub is_focused: bool,
}

pub struct PanelComponent {
    base: ComponentBase<PanelComponentProps, ()>,
    tab: TabComponent,
}

impl PanelComponent {
    /// The props, as a mathematical value.
    pub closed spec fn spec_props(&self) -> Option<PanelComponentProps> {
        self.base.spec_props()
    }

    /// The tab child, as a mathematical value.
    pub closed spec fn spec_tab(&self) -> TabComponent {
        self.tab
    }

    /// Internal consistency: an empty panel has an empty tab; a populated
    /// panel has a tab whose props agree with its own and are ready for the
    /// event policy.
    pub open spec fn wf(&self) -> bool {
        match self.spec_props() {
            None => self.spec_tab().spec_props() is None,
            Some(pp) => {
                &&& self.spec_tab().spec_props() is Some
                &&& tab_props_ready(self.spec_tab().spec_props()->0)
                &&& (self.spec_tab().spec_props()->0).panel_side == Some(pp.side)
                &&& (self.spec_tab().spec_props()->0).is_focused == pp.is_focused
            },
        }
    }

    /// A panel with no backing state; handles nothing and draws nothing.
    pub fn empty() -> (r: Self)
        ensures
            r.spec_props() is None,
            r.wf(),
    {
        PanelComponent { base: ComponentBase::new(None, None), tab: TabComponent::empty() }
    }

    /// A panel derived from one panel slice of the global state: its own
    /// props carry the side and focus, its tab child carries a copy of the
    /// current tab slice.
    pub fn with_panel_state(state: &PanelState, side: PanelSide) -> (r: Self)
        requires
            panel_wf(*state),
        ensures
            r.wf(),
            spec_panel_built(r, *state, side),
    {
        proof {
            assert(tab_wf(state.tabs@[state.current_tab as int]));
        }
        let current = state.tabs[state.current_tab].clone();
        let has_displayed_tabs = state.tabs.len() > 1;
        let tprops = TabComponentProps::new(current, has_displayed_tabs, state.is_focused, side);
        PanelComponent {
            base: ComponentBase::new(
                Some(PanelComponentProps { side, is_focused: state.is_focused }),
                None,
            ),
            tab: TabComponent::new(Some(tprops)),
        }
    }

    /// Read-only access to the props, for the renderer.
    pub fn props(&self) -> (r: &Option<PanelComponentProps>)
        ensures
            *r == self.spec_props(),
    {
        self.base.get_props()
    }

    /// Read-only access to the tab child, for the renderer.
    pub fn tab(&self) -> (r: &TabComponent)
        ensures
            *r == self.spec_tab(),
    {
        &self.tab
    }
}

/// `p` is the panel component derived from panel slice `ps` on `side`: props
/// carry the side and focus, and the tab props carry the current tab's
/// contents, the tab-strip flag, the focus and the side.
pub open spec fn spec_panel_built(p: PanelComponent, ps: PanelState, side: PanelSide) -> bool {
    &&& p.spec_props() == Some(PanelComponentProps { side, is_focused: ps.is_focused })
    &&& p.spec_tab().spec_props() is Some
    &&& {
        let tp = p.spec_tab().spec_props()->0;
        &&& tp.state is Some
        &&& tab_eq(tp.state->0, ps.tabs@[ps.current_tab as int])
        &&& tp.has_displayed_tabs == (ps.tabs@.len() > 1)
        &&& tp.is_focused == ps.is_focused
        &&& tp.panel_side == Some(side)
    }
}

/// Whether the panel consumes `event` under state `s`: an empty panel never
/// does; otherwise its tab's policy decides.
pub open spec fn spec_panel_handled(p: PanelComponent, event: Event, s: AppState) -> bool {
    match p.spec_props() {
        None => false,
        Some(_) => match event {
            Event::Keyboard(k) => spec_tab_handled(p.spec_tab().spec_props()->0, k, s),
            Event::Tick => false,
        },
    }
}

/// The action the panel dispatches for `event` under state `s`, if any.
pub open spec fn spec_panel_action(p: PanelComponent, event: Event, s: AppState) -> Option<
    FileManagerActions,
> {
    match p.spec_props() {
        None => None,
        Some(_) => match event {
            Event::Keyboard(k) => spec_tab_action(p.spec_tab().spec_props()->0, k, s),
            Event::Tick => None,
        },
    }
}

impl Component for PanelComponent {
    open spec fn init_ready(pre: Self, store: Store) -> bool {
        true
    }

    /// A panel owns no local state, so initialization changes nothing.
    open spec fn inited(pre: Self, post: Self, store: Store) -> bool {
        post == pre
    }

    open spec fn ready(pre: Self, store: Store) -> bool {
        &&& store.wf()
        &&& pre.wf()
    }

    /// One event: the component itself never changes, the consumed flag
    /// follows [`spec_panel_handled`], and the store receives exactly the
    /// action of [`spec_panel_action`], if any.
    open spec fn step(
        pre: Self,
        post: Self,
        event: Event,
        pre_store: Store,
        post_store: Store,
        handled: bool,
    ) -> bool {
        &&& post == pre
        &&& handled == spec_panel_handled(pre, event, pre_store.spec_state())
        &&& post_store.wf()
        &&& match spec_panel_action(pre, event, pre_store.spec_state()) {
            Some(a) => {
                &&& post_store.log() == pre_store.log().push(a)
                &&& spec_reduced(pre_store.spec_state(), a, post_store.spec_state())
            },
            None => post_store == pre_store,
        }
    }

    fn on_init(&mut self, store: &Store) {
    }

    fn handle_event(&mut self, event: Event, store: &mut Store) -> (handled: bool) {
        if self.base.get_props().is_none() {
            return false;
        }
        self.tab.handle_event(event, store)
    }
}

} // verus!
