//! The root component: the sole entry point for event routing. It owns no
//! business state beyond which panel is focused, derives the two panels and
//! the optional overlay (create modal or error modal) from the global state
//! after every handled event, and routes each input event with
//! short-circuiting: quit intercept first, then exclusive delegation to the
//! mounted overlay, then focus switching, then the panels.

use vstd::prelude::*;
use crate::actions::{AppAction, FileManagerActions, PanelSide};
use crate::component::Component;
use crate::component_base::ComponentBase;
use crate::create_modal::{CreateModalComponent, CreateModalProps};
use crate::error_modal::{ErrorModalComponent, ErrorModalProps};
use crate::events::Event;
use crate::layout::{spec_left_half, spec_right_half, split_horizontal, Rect};
use crate::panel::{
    spec_panel_action, spec_panel_built, spec_panel_handled, PanelComponent,
};
use crate::state::{AppState, ModalType};
use crate::store::{spec_reduced, Store};
use crate::tab::{spec_tab_render_model, TabRenderModel};

verus! {

/// Root's local state: which panel currently holds focus, cached only to
/// decide where the modal is rendered.
#[derive(Clone, Copy, Debug)]
pub struct RootComponentState {
    pub focused_panel: Option<PanelSide>,
}

impl Default for RootComponentState {
    fn default() -> (r: Self)
        ensures
            r.focused_panel is None,
    {
        RootComponentState { focused_panel: None }
    }
}

pub struct RootComponent {
    base: ComponentBase<(), RootComponentState>,
    left_panel: PanelComponent,
    right_panel: PanelComponent,
    create_modal: Option<CreateModalComponent>,
    error_modal: Option<ErrorModalComponent>,
}

/// The focus cache derived from a state: left wins if both claim focus
/// (which the state invariant rules out for reachable states).
pub open spec fn spec_focus_of(s: AppState) -> Option<PanelSide> {
    if s.left_panel.is_focused {
        Some(PanelSide::Left)
    } else if s.right_panel.is_focused {
        Some(PanelSide::Right)
    } else {
        None
    }
}

/// `c` is the modal component built from a create-modal descriptor.
pub open spec fn spec_modal_built(
    c: CreateModalComponent,
    side: PanelSide,
    tab: usize,
    path: String,
) -> bool {
    c.spec_props() == Some(CreateModalProps { panel_side: side, panel_tab: tab, panel_tab_path: path })
}

/// `c` is the error-modal component built from an error descriptor.
pub open spec fn spec_error_modal_built(c: ErrorModalComponent, message: String) -> bool {
    c.spec_props() == Some(ErrorModalProps { message })
}

/// The state-derivation relation: `post` is `pre` after one re-derivation
/// from state `s`. The focus cache and both panels are rebuilt from `s`; the
/// two overlay components are reconciled in lockstep with the modal slot:
/// the one matching the present descriptor is constructed when no instance
/// is mounted and kept untouched while its descriptor remains, the other is
/// torn down, and an empty slot unmounts both — so at most one overlay is
/// ever mounted.
pub open spec fn spec_root_mapped(pre: RootComponent, post: RootComponent, s: AppState) -> bool {
    &&& post.spec_local() == Some(RootComponentState { focused_panel: spec_focus_of(s) })
    &&& post.spec_props() == pre.spec_props()
    &&& spec_panel_built(post.spec_left(), s.left_panel, PanelSide::Left)
    &&& spec_panel_built(post.spec_right(), s.right_panel, PanelSide::Right)
    &&& match s.modal {
        Some(m) => match m {
            ModalType::CreateModal { panel_side, panel_tab, panel_tab_path } => {
                &&& if pre.spec_modal() is Some {
                    post.spec_modal() == pre.spec_modal()
                } else {
                    &&& post.spec_modal() is Some
                    &&& spec_modal_built(post.spec_modal()->0, panel_side, panel_tab, panel_tab_path)
                }
                &&& post.spec_error_modal() is None
            },
            ModalType::ErrorModal(message) => {
                &&& post.spec_modal() is None
                &&& if pre.spec_error_modal() is Some {
                    post.spec_error_modal() == pre.spec_error_modal()
                } else {
                    &&& post.spec_error_modal() is Some
                    &&& spec_error_modal_built(post.spec_error_modal()->0, message)
                }
            },
        },
        None => {
            &&& post.spec_modal() is None
            &&& post.spec_error_modal() is None
        },
    }
}

/// Whether any overlay (create or error modal) is currently mounted.
pub open spec fn spec_overlay_mounted(r: RootComponent) -> bool {
    r.spec_modal() is Some || r.spec_error_modal() is Some
}

/// What delegation to the panels does: the left panel is asked first and
/// short-circuits on consumption; otherwise the right panel decides. Either
/// way the component tree is re-derived from the post-dispatch state.
pub open spec fn spec_root_delegated(
    pre: RootComponent,
    post: RootComponent,
    event: Event,
    s0: Store,
    s1: Store,
    handled: bool,
) -> bool {
    let s = s0.spec_state();
    let lh = spec_panel_handled(pre.spec_left(), event, s);
    let la = spec_panel_action(pre.spec_left(), event, s);
    let rh = spec_panel_handled(pre.spec_right(), event, s);
    let ra = spec_panel_action(pre.spec_right(), event, s);
    if lh {
        &&& handled == true
        &&& s1.wf()
        &&& match la {
            Some(a) => {
                &&& s1.log() == s0.log().push(a)
                &&& spec_reduced(s, a, s1.spec_state())
            },
            None => s1 == s0,
        }
        &&& spec_root_mapped(pre, post, s1.spec_state())
    } else {
        &&& handled == rh
        &&& s1.wf()
        &&& match ra {
            Some(a) => {
                &&& s1.log() == s0.log().push(a)
                &&& spec_reduced(s, a, s1.spec_state())
            },
            None => s1 == s0,
        }
        &&& spec_root_mapped(pre, post, s1.spec_state())
    }
}

impl RootComponent {
    /// The props, as a mathematical value (root takes none).
    pub closed spec fn spec_props(&self) -> Option<()> {
        self.base.spec_props()
    }

    /// The local state, as a mathematical value.
    pub closed spec fn spec_local(&self) -> Option<RootComponentState> {
        self.base.spec_local()
    }

    /// The left panel child, as a mathematical value.
    pub closed spec fn spec_left(&self) -> PanelComponent {
        self.left_panel
    }

    /// The right panel child, as a mathematical value.
    pub closed spec fn spec_right(&self) -> PanelComponent {
        self.right_panel
    }

    /// The mounted create-modal component, as a mathematical value.
    pub closed spec fn spec_modal(&self) -> Option<CreateModalComponent> {
        self.create_modal
    }

    /// The mounted error-modal component, as a mathematical value.
    pub closed spec fn spec_error_modal(&self) -> Option<ErrorModalComponent> {
        self.error_modal
    }

    /// Internal consistency: both panels consistent, a focus cache present,
    /// and at most one overlay mounted.
    pub open spec fn wf(&self) -> bool {
        &&& self.spec_left().wf()
        &&& self.spec_right().wf()
        &&& self.spec_local() is Some
        &&& !(self.spec_modal() is Some && self.spec_error_modal() is Some)
    }

    pub fn new() -> (r: Self)
        ensures
            r.wf(),
            r.spec_local() == Some(RootComponentState { focused_panel: None::<PanelSide> }),
            r.spec_left().spec_props() is None,
            r.spec_right().spec_props() is None,
            r.spec_modal() is None,
            r.spec_error_modal() is None,
    {
        RootComponent {
            base: ComponentBase::new(None, Some(RootComponentState::default())),
            left_panel: PanelComponent::empty(),
            right_panel: PanelComponent::empty(),
            create_modal: None,
            error_modal: None,
        }
    }

    /// Read-only access to the left panel, for the renderer.
    pub fn left(&self) -> (r: &PanelComponent)
        ensures
            *r == self.spec_left(),
    {
        &self.left_panel
    }

    /// Read-only access to the right panel, for the renderer.
    pub fn right(&self) -> (r: &PanelComponent)
        ensures
            *r == self.spec_right(),
    {
        &self.right_panel
    }

    /// Read-only access to the local state, for the renderer.
    pub fn local_state(&self) -> (r: &Option<RootComponentState>)
        ensures
            *r == self.spec_local(),
    {
        self.base.get_state()
    }

    /// Read-only access to the mounted create modal, for the renderer.
    pub fn modal(&self) -> (r: &Option<CreateModalComponent>)
        ensures
            *r == self.spec_modal(),
    {
        &self.create_modal
    }

    /// Read-only access to the mounted error modal, for the renderer.
    pub fn error_modal(&self) -> (r: &Option<ErrorModalComponent>)
        ensures
            *r == self.spec_error_modal(),
    {
        &self.error_modal
    }

    /// Re-derives all component state from the store: reads the fresh state,
    /// recomputes the focus cache, rebuilds both panel views from their
    /// slices, and reconciles the overlay components against the modal slot,
    /// so that exactly the overlay matching the present descriptor (if any)
    /// stays mounted.
    pub fn map_state(&mut self, store: &Store)
        requires
            store.wf(),
        ensures
            final(self).wf(),
            spec_root_mapped(*old(self), *final(self), store.spec_state()),
    {
        let state = store.get_state();
        if state.left_panel.is_focused {
            self.base.set_state(
                (|_current_state: &Option<RootComponentState>| -> (r: RootComponentState)
                    ensures
                        r.focused_panel == Some(PanelSide::Left),
                    { RootComponentState { focused_panel: Some(PanelSide::Left) } }),
            );
        } else if state.right_panel.is_focused {
            self.base.set_state(
                (|_current_state: &Option<RootComponentState>| -> (r: RootComponentState)
                    ensures
                        r.focused_panel == Some(PanelSide::Right),
                    { RootComponentState { focused_panel: Some(PanelSide::Right) } }),
            );
        } else {
            self.base.set_state(
                (|_current_state: &Option<RootComponentState>| -> (r: RootComponentState)
                    ensures
                        r.focused_panel is None,
                    { RootComponentState { focused_panel: None } }),
            );
        }
        self.left_panel = PanelComponent::with_panel_state(&state.left_panel, PanelSide::Left);
        self.right_panel = PanelComponent::with_panel_state(&state.right_panel, PanelSide::Right);
        match &state.modal {
            Some(modal_type) => match modal_type {
                ModalType::CreateModal { panel_side, panel_tab, panel_tab_path } => {
                    if self.create_modal.is_none() {
                        self.create_modal = Some(
                            CreateModalComponent::with_props(
                                CreateModalProps::new(
                                    *panel_side,
                                    *panel_tab,
                                    panel_tab_path.clone(),
                                ),
                            ),
                        );
                    }
                    self.error_modal = None;
                },
                ModalType::ErrorModal(message) => {
                    self.create_modal = None;
                    if self.error_modal.is_none() {
                        self.error_modal = Some(
                            ErrorModalComponent::with_props(ErrorModalProps::new(message.clone())),
                        );
                    }
                },
            },
            None => {
                self.create_modal = None;
                self.error_modal = None;
            },
        }
    }
}

impl Component for RootComponent {
    open spec fn init_ready(pre: Self, store: Store) -> bool {
        store.wf()
    }

    /// Initialization performs the first state derivation.
    open spec fn inited(pre: Self, post: Self, store: Store) -> bool {
        &&& post.wf()
        &&& spec_root_mapped(pre, post, store.spec_state())
    }

    open spec fn ready(pre: Self, store: Store) -> bool {
        &&& store.wf()
        &&& pre.wf()
    }

    /// The routing algorithm, step by step, each clause short-circuiting on
    /// "handled": a quit key dispatches exactly one exit action and bypasses
    /// all children untouched; while an overlay is mounted every other event
    /// reaches only that overlay, never the panels, nothing is dispatched,
    /// and the overlay's result is returned (keyboard consumed, anything
    /// else not); a focus key dispatches exactly its focus action and is
    /// always consumed; everything else is delegated to the panels. Every
    /// path except the quit intercept re-derives the component tree from the
    /// post-dispatch state.
    open spec fn step(
        pre: Self,
        post: Self,
        event: Event,
        s0: Store,
        s1: Store,
        handled: bool,
    ) -> bool {
        let s = s0.spec_state();
        let kb = s.config.keyboard_cfg;
        &&& post.wf()
        &&& match event {
            Event::Keyboard(k) => {
                if kb.quit.spec_is_pressed(k) {
                    &&& handled == true
                    &&& s1.wf()
                    &&& s1.log() == s0.log().push(FileManagerActions::App(AppAction::Exit))
                    &&& spec_reduced(s, FileManagerActions::App(AppAction::Exit), s1.spec_state())
                    &&& post == pre
                } else if spec_overlay_mounted(pre) {
                    &&& handled == true
                    &&& s1 == s0
                    &&& spec_root_mapped(pre, post, s1.spec_state())
                } else if kb.focus_left_panel.spec_is_pressed(k) {
                    &&& handled == true
                    &&& s1.wf()
                    &&& s1.log() == s0.log().push(FileManagerActions::App(AppAction::FocusLeft))
                    &&& spec_reduced(
                        s,
                        FileManagerActions::App(AppAction::FocusLeft),
                        s1.spec_state(),
                    )
                    &&& spec_root_mapped(pre, post, s1.spec_state())
                } else if kb.focus_right_panel.spec_is_pressed(k) {
                    &&& handled == true
                    &&& s1.wf()
                    &&& s1.log() == s0.log().push(FileManagerActions::App(AppAction::FocusRight))
                    &&& spec_reduced(
                        s,
                        FileManagerActions::App(AppAction::FocusRight),
                        s1.spec_state(),
                    )
                    &&& spec_root_mapped(pre, post, s1.spec_state())
                } else {
                    spec_root_delegated(pre, post, event, s0, s1, handled)
                }
            },
            Event::Tick => {
                if spec_overlay_mounted(pre) {
                    &&& handled == false
                    &&& s1 == s0
                    &&& spec_root_mapped(pre, post, s1.spec_state())
                } else {
                    spec_root_delegated(pre, post, event, s0, s1, handled)
                }
            },
        }
    }

    fn on_init(&mut self, store: &Store) {
        self.map_state(store);
    }

    fn handle_event(&mut self, event: Event, store: &mut Store) -> (handled: bool) {
        let mut focus_left_pressed = false;
        let mut focus_right_pressed = false;
        match event {
            Event::Keyboard(key_evt) => {
                let state = store.get_state();
                if state.config.keyboard_cfg.quit.is_pressed(key_evt) {
                    store.dispatch(FileManagerActions::App(AppAction::Exit));
                    return true;
                }
                focus_left_pressed = state.config.keyboard_cfg.focus_left_panel.is_pressed(
                    key_evt,
                );
                focus_right_pressed = state.config.keyboard_cfg.focus_right_panel.is_pressed(
                    key_evt,
                );
            },
            Event::Tick => {},
        }
        let mut modal_result: Option<bool> = None;
        match &mut self.create_modal {
            Some(create_modal) => {
                modal_result = Some(create_modal.handle_event(event, store));
            },
            None => {
                match &mut self.error_modal {
                    Some(error_modal) => {
                        modal_result = Some(error_modal.handle_event(event, store));
                    },
                    None => {},
                }
            },
        }
        match modal_result {
            Some(result) => {
                self.map_state(store);
                return result;
            },
            None => {},
        }
        if focus_left_pressed {
            store.dispatch(FileManagerActions::App(AppAction::FocusLeft));
            self.map_state(store);
            return true;
        }
        if focus_right_pressed {
            store.dispatch(FileManagerActions::App(AppAction::FocusRight));
            self.map_state(store);
            return true;
        }
        let result = self.left_panel.handle_event(event, store);
        if result {
            self.map_state(store);
            return true;
        }
        let result = self.right_panel.handle_event(event, store);
        self.map_state(store);
        result
    }
}

/// Where a mounted modal overlay is drawn.
#[derive(Clone, Copy, PartialEq, Eq, Debug)]
pub enum ModalPlacement {
    InArea(Rect),
    FullSurface,
}

/// The layout decisions of one render pass: the two half areas for the
/// panels, and where the modal goes if one is mounted.
#[derive(Clone, Copy, PartialEq, Eq, Debug)]
pub struct RenderPlan {
    pub left_area: Rect,
    pub right_area: Rect,
    pub modal: Option<ModalPlacement>,
}

/// Where the root places a mounted overlay (create or error modal): inside
/// whichever half currently holds focus, or over the full surface when no
/// panel is focused.
pub open spec fn spec_modal_placement(r: RootComponent, area: Rect) -> Option<ModalPlacement> {
    if spec_overlay_mounted(r) {
        match (r.spec_local()->0).focused_panel {
            Some(PanelSide::Left) => Some(ModalPlacement::InArea(spec_left_half(area))),
            Some(PanelSide::Right) => Some(ModalPlacement::InArea(spec_right_half(area))),
            None => Some(ModalPlacement::FullSurface),
        }
    } else {
        None
    }
}

impl RootComponent {
    /// The layout decisions for one render pass over `area`: the surface is
    /// split into two equal horizontal halves, the panels get one half each,
    /// and a mounted modal is drawn per [`spec_modal_placement`].
    pub fn render_plan(&self, area: Rect) -> (r: RenderPlan)
        requires
            self.spec_local() is Some,
            area.x + area.width <= u16::MAX,
        ensures
            r.left_area == spec_left_half(area),
            r.right_area == spec_right_half(area),
            r.modal == spec_modal_placement(*self, area),
    {
        let (left_area, right_area) = split_horizontal(area);
        let modal = if self.create_modal.is_some() || self.error_modal.is_some() {
            match self.base.get_state().as_ref().unwrap().focused_panel {
                Some(PanelSide::Left) => Some(ModalPlacement::InArea(left_area)),
                Some(PanelSide::Right) => Some(ModalPlacement::InArea(right_area)),
                None => Some(ModalPlacement::FullSurface),
            }
        } else {
            None
        };
        RenderPlan { left_area, right_area, modal }
    }
}

/// Everything a renderer needs to draw the whole tree: the focus cache, the
/// two panels' tab views, the mounted create modal's props, and the active
/// error message, if any.
pub struct RootRenderModel {
    pub focused_panel: Option<PanelSide>,
    pub left: Option<TabRenderModel>,
    pub right: Option<TabRenderModel>,
    pub modal: Option<CreateModalProps>,
    pub error: Option<String>,
}

/// The render model the root derives from its children.
pub open spec fn spec_root_render_model(r: RootComponent) -> RootRenderModel {
    RootRenderModel {
        focused_panel: (r.spec_local()->0).focused_panel,
        left: spec_tab_render_model(r.spec_left().spec_tab()),
        right: spec_tab_render_model(r.spec_right().spec_tab()),
        modal: match r.spec_modal() {
            Some(m) => m.spec_props(),
            None => None,
        },
        error: match r.spec_error_modal() {
            Some(m) => match m.spec_props() {
                Some(p) => Some(p.message),
                None => None,
            },
            None => None,
        },
    }
}

/// Reconciliation idempotence: re-deriving component state twice in a row
/// from the same state, with no dispatch in between, yields component views
/// that render identically.
pub proof fn lemma_reconciliation_idempotent(
    pre: RootComponent,
    once: RootComponent,
    twice: RootComponent,
    s: AppState,
)
    requires
        spec_root_mapped(pre, once, s),
        spec_root_mapped(once, twice, s),
    ensures
        spec_root_render_model(twice) == spec_root_render_model(once),
{
}

/// Modal lifecycle: one re-derivation mounts exactly the one overlay whose
/// descriptor sits in the modal slot, keeps an already-mounted instance
/// untouched while its own descriptor remains (so repeating the derivation
/// never constructs a second instance), tears the other overlay down, and
/// unmounts both when the slot is empty — at most one overlay is ever
/// mounted.
pub proof fn lemma_modal_lifecycle(pre: RootComponent, post: RootComponent, s: AppState)
    requires
        spec_root_mapped(pre, post, s),
    ensures
        (s.modal matches Some(m) && m is CreateModal) ==> (post.spec_modal() is Some
            && post.spec_error_modal() is None),
        (s.modal matches Some(m) && m is ErrorModal) ==> (post.spec_modal() is None
            && post.spec_error_modal() is Some),
        s.modal is None ==> (post.spec_modal() is None && post.spec_error_modal() is None),
        (pre.spec_modal() is Some && (s.modal matches Some(m) && m is CreateModal))
            ==> post.spec_modal() == pre.spec_modal(),
        (pre.spec_error_modal() is Some && (s.modal matches Some(m) && m is ErrorModal))
            ==> post.spec_error_modal() == pre.spec_error_modal(),
        !(post.spec_modal() is Some && post.spec_error_modal() is Some),
{
}

} // verus!
