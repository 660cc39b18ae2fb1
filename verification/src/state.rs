//! The global application state: two symmetric panel states, an optional
//! modal descriptor, and the keyboard configuration. Owned exclusively by the
//! store and only replaced through the reducer.

use vstd::prelude::*;
use crate::actions::PanelSide;
use crate::events::KeyEvent;
use crate::file_system::FileSystemItem;

verus! {

/// A named key binding: the set of key events that trigger it. The engine
/// treats a binding as an opaque predicate over key events.
pub struct KeyBinding {
    pub keys: Vec<KeyEvent>,
}

impl KeyBinding {
    /// Whether `k` is one of the keys bound to this binding.
    pub open spec fn spec_is_pressed(&self, k: KeyEvent) -> bool {
        self.keys@.contains(k)
    }

    pub fn new(keys: Vec<KeyEvent>) -> (r: Self)
        ensures
            r.keys == keys,
    {
        KeyBinding { keys }
    }

    pub fn is_pressed(&self, k: KeyEvent) -> (r: bool)
        ensures
            r == self.spec_is_pressed(k),
    {
        let mut i: usize = 0;
        while i < self.keys.len()
            invariant
                i <= self.keys.len(),
                forall|j: int| 0 <= j < i ==> self.keys@[j] != k,
            decreases self.keys.len() - i,
        {
            if self.keys[i] == k {
                return true;
            }
            i += 1;
        }
        false
    }
}

/// The named bindings the engine consults while routing events.
pub struct KeyboardConfig {
    pub quit: KeyBinding,
    pub focus_left_panel: KeyBinding,
    pub focus_right_panel: KeyBinding,
    pub next_tab_item: KeyBinding,
    pub prev_tab_item: KeyBinding,
    pub open: KeyBinding,
    pub delete: KeyBinding,
    pub move_left: KeyBinding,
    pub move_right: KeyBinding,
}

/// Process configuration visible to the engine.
pub struct Config {
    pub keyboard_cfg: KeyboardConfig,
}

/// One directory view within a panel: a name, an ordered item listing, and
/// the transient selection cursor for list rendering.
pub struct TabState {
    pub name: String,
    pub items: Vec<FileSystemItem>,
    pub selected: Option<usize>,
}

/// A tab's selection is either absent or a valid index into its items.
pub open spec fn tab_wf(t: TabState) -> bool {
    t.selected is Some ==> (t.selected->0 as int) < t.items@.len()
}

/// Two tab states carrying the same contents (item listings compared as
/// sequences, so a reconstructed copy counts as equal).
pub open spec fn tab_eq(a: TabState, b: TabState) -> bool {
    &&& a.name == b.name
    &&& a.items@ == b.items@
    &&& a.selected == b.selected
}

impl TabState {
    pub fn new(name: String, items: Vec<FileSystemItem>, selected: Option<usize>) -> (r: Self)
        requires
            selected is Some ==> (selected->0 as int) < items@.len(),
        ensures
            r.name == name,
            r.items == items,
            r.selected == selected,
            tab_wf(r),
    {
        TabState { name, items, selected }
    }
}

impl Clone for TabState {
    fn clone(&self) -> (r: Self)
        ensures
            tab_eq(r, *self),
    {
        let items = self.items.clone();
        proof {
            assert forall|i: int| 0 <= i < self.items@.len() implies items@[i]
                == self.items@[i] by {
                assert(vstd::pervasive::cloned::<FileSystemItem>(self.items@[i], items@[i]));
            }
            assert(items@ =~= self.items@);
        }
        TabState { name: self.name.clone(), items, selected: self.selected }
    }
}

/// One side of the file manager: whether it holds focus, which of its tabs is
/// current, and the tabs themselves.
pub struct PanelState {
    pub tabs: Vec<TabState>,
    pub is_focused: bool,
    pub current_tab: usize,
}

/// A panel always has a current tab, and every tab is well formed.
pub open spec fn panel_wf(p: PanelState) -> bool {
    &&& (p.current_tab as int) < p.tabs@.len()
    &&& forall|i: int| 0 <= i < p.tabs@.len() ==> tab_wf(#[trigger] p.tabs@[i])
}

impl PanelState {
    pub fn new(tabs: Vec<TabState>, is_focused: bool, current_tab: usize) -> (r: Self)
        requires
            (current_tab as int) < tabs@.len(),
            forall|i: int| 0 <= i < tabs@.len() ==> tab_wf(#[trigger] tabs@[i]),
        ensures
            r.tabs == tabs,
            r.is_focused == is_focused,
            r.current_tab == current_tab,
            panel_wf(r),
    {
        PanelState { tabs, is_focused, current_tab }
    }
}

/// Descriptor of the single active modal overlay, if any. Its presence in
/// [`AppState`] is the sole lifecycle signal for the modal component.
#[derive(Debug, PartialEq)]
pub enum ModalType {
    CreateModal { panel_side: PanelSide, panel_tab: usize, panel_tab_path: String },
    ErrorModal(String),
}

impl Clone for ModalType {
    fn clone(&self) -> (r: Self)
        ensures
            r == *self,
    {
        match self {
            ModalType::CreateModal { panel_side, panel_tab, panel_tab_path } => {
                ModalType::CreateModal {
                    panel_side: *panel_side,
                    panel_tab: *panel_tab,
                    panel_tab_path: panel_tab_path.clone(),
                }
            },
            ModalType::ErrorModal(msg) => ModalType::ErrorModal(msg.clone()),
        }
    }
}

/// The single source of truth the store owns.
pub struct AppState {
    pub left_panel: PanelState,
    pub right_panel: PanelState,
    pub modal: Option<ModalType>,
    pub config: Config,
    pub app_exit: bool,
}

/// At most one panel holds focus at a time.
pub open spec fn focus_exclusive(s: AppState) -> bool {
    !(s.left_panel.is_focused && s.right_panel.is_focused)
}

/// The state invariant every reachable state satisfies: exclusive focus and
/// well-formed panels.
pub open spec fn app_wf(s: AppState) -> bool {
    &&& focus_exclusive(s)
    &&& panel_wf(s.left_panel)
    &&& panel_wf(s.right_panel)
}

impl AppState {
    pub fn new(left_panel: PanelState, right_panel: PanelState, config: Config) -> (r: Self)
        requires
            panel_wf(left_panel),
            panel_wf(right_panel),
            !(left_panel.is_focused && right_panel.is_focused),
        ensures
            r.left_panel == left_panel,
            r.right_panel == right_panel,
            r.modal is None,
            r.config == config,
            r.app_exit == false,
            app_wf(r),
    {
        AppState { left_panel, right_panel, modal: None, config, app_exit: false }
    }
}

} // verus!
