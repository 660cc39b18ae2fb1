//! The tab component: one directory view. Owns no local state; every render
//! is driven purely by props. Its event policy dispatches navigation and
//! file/directory actions as described by [`spec_tab_action`].

use vstd::prelude::*;
use crate::actions::{DirectoryAction, FileAction, FileManagerActions, PanelSide, TabAction};
use crate::component::Component;
use crate::component_base::ComponentBase;
use crate::events::{Event, KeyEvent};
use crate::file_system::FileSystemItem;
use crate::state::{tab_wf, AppState, TabState};
use crate::store::{spec_reduced, Store};

verus! {

/// Props of a tab component: the tab's state slice, whether a tab strip is
/// displayed, whether this tab holds focus, and which panel side it belongs
/// to. Read-only; replaced wholesale each derivation cycle.
pub struct TabComponentProps {
    pub state: Option<TabState>,
    pub has_displayed_tabs: bool,
    pub is_focused: bool,
    pub panel_side: Option<PanelSide>,
}

impl Default for TabComponentProps {
    fn default() -> (r: Self)
        ensures
            r.state is None,
            r.has_displayed_tabs == false,
            r.is_focused == false,
            r.panel_side is None,
    {
        TabComponentProps { state: None, has_displayed_tabs: false, is_focused: false, panel_side: None }
    }
}

impl TabComponentProps {
    pub fn new(state: TabState, has_displayed_tabs: bool, is_focused: bool, panel_side: PanelSide) -> (r: Self)
        ensures
            r.state == Some(state),
            r.has_displayed_tabs == has_displayed_tabs,
            r.is_focused == is_focused,
            r.panel_side == Some(panel_side),
    {
        TabComponentProps { state: Some(state), has_displayed_tabs, is_focused, panel_side: Some(panel_side) }
    }
}

/// Props carrying a well-formed tab slice and a panel side: what the event
/// policy needs to run.
pub open spec fn tab_props_ready(p: TabComponentProps) -> bool {
    &&& p.state is Some
    &&& tab_wf(p.state->0)
    &&& p.panel_side is Some
}

/// The item under the selection cursor, if any.
pub open spec fn spec_selected_item(p: TabComponentProps) -> Option<FileSystemItem> {
    let t = p.state->0;
    match t.selected {
        Some(i) => Some(t.items@[i as int]),
        None => None,
    }
}

/// The current tab index of the panel on `side`.
pub open spec fn spec_tab_index(side: PanelSide, s: AppState) -> usize {
    match side {
        PanelSide::Left => s.left_panel.current_tab,
        PanelSide::Right => s.right_panel.current_tab,
    }
}

/// The action a tab with props `p` dispatches for key `k` under state `s`:
/// next/previous always navigate; open and delete act on the selected item
/// only while focused, sourcing the action from the item's kind and path, the
/// panel's current tab index, and the panel side. `None` both where the key
/// is not recognized and where a recognized key has nothing to act on.
pub open spec fn spec_tab_action(p: TabComponentProps, k: KeyEvent, s: AppState) -> Option<
    FileManagerActions,
> {
    let kb = s.config.keyboard_cfg;
    let side = p.panel_side->0;
    let tab_idx = spec_tab_index(side, s);
    if kb.next_tab_item.spec_is_pressed(k) {
        Some(FileManagerActions::Tab(TabAction::Next))
    } else if kb.prev_tab_item.spec_is_pressed(k) {
        Some(FileManagerActions::Tab(TabAction::Previous))
    } else if spec_selected_item(p) is Some {
        let item = spec_selected_item(p)->0;
        if kb.open.spec_is_pressed(k) && p.is_focused {
            match item {
                FileSystemItem::Directory(path) => Some(
                    FileManagerActions::Directory(
                        DirectoryAction::Open { path, tab: tab_idx, panel: side },
                    ),
                ),
                FileSystemItem::File(path) => Some(
                    FileManagerActions::File(FileAction::Open { path, tab: tab_idx, panel: side }),
                ),
                FileSystemItem::Unknown => None,
            }
        } else if kb.delete.spec_is_pressed(k) && p.is_focused {
            match item {
                FileSystemItem::Directory(path) => Some(
                    FileManagerActions::Directory(
                        DirectoryAction::Delete { path, tab: tab_idx, panel: side },
                    ),
                ),
                FileSystemItem::File(path) => Some(
                    FileManagerActions::File(
                        FileAction::Delete { path, tab: tab_idx, panel: side },
                    ),
                ),
                FileSystemItem::Unknown => None,
            }
        } else {
            None
        }
    } else {
        None
    }
}

/// Whether a tab with props `p` consumes key `k` under state `s`:
/// next/previous are always consumed; open and delete are consumed exactly
/// when the tab is focused and a selection exists, even when the selected
/// item's kind gives them nothing to dispatch.
pub open spec fn spec_tab_handled(p: TabComponentProps, k: KeyEvent, s: AppState) -> bool {
    let kb = s.config.keyboard_cfg;
    ||| kb.next_tab_item.spec_is_pressed(k)
    ||| kb.prev_tab_item.spec_is_pressed(k)
    ||| (spec_selected_item(p) is Some && p.is_focused && (kb.open.spec_is_pressed(k)
        || kb.delete.spec_is_pressed(k)))
}

/// Everything a renderer needs to draw a tab: the title, one row per item,
/// and — only while focused — the selection cursor for the stateful list.
pub struct TabRenderModel {
    pub name: String,
    pub rows: Seq<FileSystemItem>,
    pub selected: Option<usize>,
    pub focused: bool,
}

pub struct TabComponent {
    base: ComponentBase<TabComponentProps, ()>,
}

/// The render model a tab derives from its props; `None` where there is no
/// tab slice to draw.
pub open spec fn spec_tab_render_model(t: TabComponent) -> Option<TabRenderModel> {
    match t.spec_props() {
        Some(p) => match p.state {
            Some(ts) => Some(
                TabRenderModel {
                    name: ts.name,
                    rows: ts.items@,
                    selected: if p.is_focused {
                        ts.selected
                    } else {
                        None
                    },
                    focused: p.is_focused,
                },
            ),
            None => None,
        },
        None => None,
    }
}

impl TabComponent {
    /// The props, as a mathematical value.
    pub closed spec fn spec_props(&self) -> Option<TabComponentProps> {
        self.base.spec_props()
    }

    pub fn new(props: Option<TabComponentProps>) -> (r: Self)
        ensures
            r.spec_props() == props,
    {
        TabComponent { base: ComponentBase::new(props, None) }
    }

    pub fn empty() -> (r: Self)
        ensures
            r.spec_props() is None,
    {
        TabComponent::new(None)
    }

    /// Read-only access to the props, for the renderer.
    pub fn props(&self) -> (r: &Option<TabComponentProps>)
        ensures
            *r == self.spec_props(),
    {
        self.base.get_props()
    }

    /// A copy of the item under the selection cursor, if any.
    pub fn current_item(&self) -> (r: Option<FileSystemItem>)
        requires
            self.spec_props() is Some,
            (self.spec_props()->0).state is Some,
            tab_wf((self.spec_props()->0).state->0),
        ensures
            r == spec_selected_item(self.spec_props()->0),
    {
        let props = self.base.get_props().as_ref().unwrap();
        let state = props.state.as_ref().unwrap();
        match state.selected {
            Some(idx) => Some(state.items[idx].clone()),
            None => None,
        }
    }
}

impl Component for TabComponent {
    open spec fn init_ready(pre: Self, store: Store) -> bool {
        true
    }

    /// A tab owns no local state, so initialization changes nothing.
    open spec fn inited(pre: Self, post: Self, store: Store) -> bool {
        post == pre
    }

    open spec fn ready(pre: Self, store: Store) -> bool {
        &&& store.wf()
        &&& pre.spec_props() is Some
        &&& tab_props_ready(pre.spec_props()->0)
    }

    /// One event: the component itself never changes; for a keyboard event
    /// the consumed flag follows [`spec_tab_handled`] and the store receives
    /// exactly the action of [`spec_tab_action`], if any; every other event
    /// is left unhandled with the store untouched.
    open spec fn step(
        pre: Self,
        post: Self,
        event: Event,
        pre_store: Store,
        post_store: Store,
        handled: bool,
    ) -> bool {
        &&& post == pre
        &&& match event {
            Event::Keyboard(k) => {
                let p = pre.spec_props()->0;
                &&& handled == spec_tab_handled(p, k, pre_store.spec_state())
                &&& post_store.wf()
                &&& match spec_tab_action(p, k, pre_store.spec_state()) {
                    Some(a) => {
                        &&& post_store.log() == pre_store.log().push(a)
                        &&& spec_reduced(pre_store.spec_state(), a, post_store.spec_state())
                    },
                    None => post_store == pre_store,
                }
            },
            Event::Tick => handled == false && post_store == pre_store,
        }
    }

    fn on_init(&mut self, store: &Store) {
    }

    fn handle_event(&mut self, event: Event, store: &mut Store) -> (handled: bool) {
        let k = match event {
            Event::Keyboard(k) => k,
            Event::Tick => {
                return false;
            },
        };
        let props = self.base.get_props().as_ref().unwrap();
        let tab_side = props.panel_side.unwrap();
        let is_focused = props.is_focused;
        let st = store.get_state();
        let kb = &st.config.keyboard_cfg;
        let next_pressed = kb.next_tab_item.is_pressed(k);
        let prev_pressed = kb.prev_tab_item.is_pressed(k);
        let open_pressed = kb.open.is_pressed(k);
        let delete_pressed = kb.delete.is_pressed(k);
        let move_left_pressed = kb.move_left.is_pressed(k);
        let move_right_pressed = kb.move_right.is_pressed(k);
        let tab_idx = match tab_side {
            PanelSide::Left => st.left_panel.current_tab,
            PanelSide::Right => st.right_panel.current_tab,
        };

        if next_pressed {
            store.dispatch(FileManagerActions::Tab(TabAction::Next));
            return true;
        }
        if prev_pressed {
            store.dispatch(FileManagerActions::Tab(TabAction::Previous));
            return true;
        }
        match self.current_item() {
            Some(current_item) => {
                if open_pressed && is_focused {
                    match current_item {
                        FileSystemItem::Directory(path) => {
                            store.dispatch(
                                FileManagerActions::Directory(
                                    DirectoryAction::Open { path, tab: tab_idx, panel: tab_side },
                                ),
                            );
                        },
                        FileSystemItem::File(path) => {
                            store.dispatch(
                                FileManagerActions::File(
                                    FileAction::Open { path, tab: tab_idx, panel: tab_side },
                                ),
                            );
                        },
                        FileSystemItem::Unknown => {},
                    }
                    return true;
                }
                if delete_pressed && is_focused {
                    match current_item {
                        FileSystemItem::Directory(path) => {
                            store.dispatch(
                                FileManagerActions::Directory(
                                    DirectoryAction::Delete { path, tab: tab_idx, panel: tab_side },
                                ),
                            );
                        },
                        FileSystemItem::File(path) => {
                            store.dispatch(
                                FileManagerActions::File(
                                    FileAction::Delete { path, tab: tab_idx, panel: tab_side },
                                ),
                            );
                        },
                        FileSystemItem::Unknown => {},
                    }
                    return true;
                }
                if move_left_pressed && is_focused && tab_side == PanelSide::Right {
                    // Recognized but intentionally not wired to any action:
                    // reserved for future cross-panel move semantics.
                }
                if move_right_pressed && is_focused && tab_side == PanelSide::Left {
                    // Recognized but intentionally not wired to any action:
                    // reserved for future cross-panel move semantics.
                }
                false
            },
            None => false,
        }
    }
}

} // verus!
