//! The store: single owner of the global state. `dispatch` is the only path
//! by which state changes; it synchronously applies the reducer and records
//! the action, so callers can re-read the state right after.

use vstd::prelude::*;
use crate::actions::{AppAction, FileManagerActions, TabAction};
use crate::state::{app_wf, panel_wf, AppState, PanelState, TabState};

verus! {

/// The selection cursor after a "next item" step over a list of `len` items:
/// an empty list keeps no selection, an unselected list selects the first
/// item, and the cursor otherwise advances with wrap-around.
pub open spec fn spec_next_selection(cur: Option<usize>, len: int) -> Option<usize> {
    match cur {
        None => if len > 0 {
            Some(0usize)
        } else {
            None
        },
        Some(i) => if i + 1 < len {
            Some((i + 1) as usize)
        } else {
            Some(0usize)
        },
    }
}

/// The selection cursor after a "previous item" step, the mirror image of
/// [`spec_next_selection`].
pub open spec fn spec_prev_selection(cur: Option<usize>, len: int) -> Option<usize> {
    match cur {
        None => if len > 0 {
            Some((len - 1) as usize)
        } else {
            None
        },
        Some(i) => if i == 0 {
            Some((len - 1) as usize)
        } else {
            Some((i - 1) as usize)
        },
    }
}

/// `t` with its selection cursor replaced.
pub open spec fn spec_tab_with_selection(t: TabState, sel: Option<usize>) -> TabState {
    TabState { name: t.name, items: t.items, selected: sel }
}

/// Relates a panel before and after one navigation step within its current
/// tab: only that tab's selection cursor changes.
pub open spec fn spec_panel_after_nav(pre: PanelState, post: PanelState, next: bool) -> bool {
    let ct = pre.current_tab as int;
    let t = pre.tabs@[ct];
    let sel = if next {
        spec_next_selection(t.selected, t.items@.len() as int)
    } else {
        spec_prev_selection(t.selected, t.items@.len() as int)
    };
    &&& post.tabs@ == pre.tabs@.update(ct, spec_tab_with_selection(t, sel))
    &&& post.is_focused == pre.is_focused
    &&& post.current_tab == pre.current_tab
}

/// The reducer relation: `post` is the state the reducer produces from `pre`
/// under `a`. The reducer is total; actions whose real effect belongs to the
/// filesystem collaborator (directory and file requests) leave the state
/// unchanged here, and that collaborator reports back by dispatching further
/// actions of its own.
pub open spec fn spec_reduced(pre: AppState, a: FileManagerActions, post: AppState) -> bool {
    match a {
        FileManagerActions::App(app) => match app {
            AppAction::Exit => {
                &&& post.left_panel == pre.left_panel
                &&& post.right_panel == pre.right_panel
                &&& post.modal == pre.modal
                &&& post.config == pre.config
                &&& post.app_exit == true
            },
            AppAction::FocusLeft => {
                &&& post.left_panel.tabs == pre.left_panel.tabs
                &&& post.left_panel.current_tab == pre.left_panel.current_tab
                &&& post.left_panel.is_focused == true
                &&& post.right_panel.tabs == pre.right_panel.tabs
                &&& post.right_panel.current_tab == pre.right_panel.current_tab
                &&& post.right_panel.is_focused == false
                &&& post.modal == pre.modal
                &&& post.config == pre.config
                &&& post.app_exit == pre.app_exit
            },
            AppAction::FocusRight => {
                &&& post.left_panel.tabs == pre.left_panel.tabs
                &&& post.left_panel.current_tab == pre.left_panel.current_tab
                &&& post.left_panel.is_focused == false
                &&& post.right_panel.tabs == pre.right_panel.tabs
                &&& post.right_panel.current_tab == pre.right_panel.current_tab
                &&& post.right_panel.is_focused == true
                &&& post.modal == pre.modal
                &&& post.config == pre.config
                &&& post.app_exit == pre.app_exit
            },
            AppAction::OpenModal(m) => {
                &&& post.left_panel == pre.left_panel
                &&& post.right_panel == pre.right_panel
                &&& post.modal == Some(m)
                &&& post.config == pre.config
                &&& post.app_exit == pre.app_exit
            },
            AppAction::CloseModal => {
                &&& post.left_panel == pre.left_panel
                &&& post.right_panel == pre.right_panel
                &&& post.modal is None
                &&& post.config == pre.config
                &&& post.app_exit == pre.app_exit
            },
        },
        FileManagerActions::Tab(t) => {
            let next = t == TabAction::Next;
            if pre.left_panel.is_focused {
                &&& spec_panel_after_nav(pre.left_panel, post.left_panel, next)
                &&& post.right_panel == pre.right_panel
                &&& post.modal == pre.modal
                &&& post.config == pre.config
                &&& post.app_exit == pre.app_exit
            } else if pre.right_panel.is_focused {
                &&& post.left_panel == pre.left_panel
                &&& spec_panel_after_nav(pre.right_panel, post.right_panel, next)
                &&& post.modal == pre.modal
                &&& post.config == pre.config
                &&& post.app_exit == pre.app_exit
            } else {
                post == pre
            }
        },
        FileManagerActions::Directory(_) => post == pre,
        FileManagerActions::File(_) => post == pre,
    }
}

/// One navigation step applied in place to the focused panel's current tab.
fn navigate_panel(p: &mut PanelState, next: bool)
    requires
        panel_wf(*old(p)),
    ensures
        panel_wf(*final(p)),
        spec_panel_after_nav(*old(p), *final(p), next),
{
    let ghost p0 = *p;
    let ct = p.current_tab;
    let len = p.tabs[ct].items.len();
    let cur = p.tabs[ct].selected;
    let sel: Option<usize> = if next {
        match cur {
            None => if len > 0 {
                Some(0)
            } else {
                None
            },
            Some(i) => if i + 1 < len {
                Some(i + 1)
            } else {
                Some(0)
            },
        }
    } else {
        match cur {
            None => if len > 0 {
                Some(len - 1)
            } else {
                None
            },
            Some(i) => if i == 0 {
                Some(len - 1)
            } else {
                Some(i - 1)
            },
        }
    };
    p.tabs[ct].selected = sel;
    proof {
        assert(crate::state::tab_wf(p0.tabs@[ct as int]));
        assert forall|i: int| 0 <= i < p.tabs@.len() implies crate::state::tab_wf(
            #[trigger] p.tabs@[i],
        ) by {
            if i != ct as int {
                assert(p.tabs@[i] == p0.tabs@[i]);
            }
        }
    }
}

/// The reducer, applied in place. Total: it always produces some next state.
fn apply(state: &mut AppState, action: &FileManagerActions)
    requires
        app_wf(*old(state)),
    ensures
        app_wf(*final(state)),
        spec_reduced(*old(state), *action, *final(state)),
{
    match action {
        FileManagerActions::App(app) => match app {
            AppAction::Exit => {
                state.app_exit = true;
            },
            AppAction::FocusLeft => {
                state.left_panel.is_focused = true;
                state.right_panel.is_focused = false;
            },
            AppAction::FocusRight => {
                state.right_panel.is_focused = true;
                state.left_panel.is_focused = false;
            },
            AppAction::OpenModal(m) => {
                state.modal = Some(m.clone());
            },
            AppAction::CloseModal => {
                state.modal = None;
            },
        },
        FileManagerActions::Tab(t) => {
            let next = match t {
                TabAction::Next => true,
                TabAction::Previous => false,
            };
            if state.left_panel.is_focused {
                navigate_panel(&mut state.left_panel, next);
            } else if state.right_panel.is_focused {
                navigate_panel(&mut state.right_panel, next);
            }
        },
        FileManagerActions::Directory(_) => {},
        FileManagerActions::File(_) => {},
    }
}

/// Single owner of the global state. Besides the state it keeps the ordered
/// record of every action dispatched so far, so that callers and tests can
/// hold the engine to "exactly these actions were dispatched".
pub struct Store {
    state: AppState,
    dispatched: Vec<FileManagerActions>,
}

impl Store {
    /// The current state, as a mathematical value.
    pub closed spec fn spec_state(&self) -> AppState {
        self.state
    }

    /// The actions dispatched so far, oldest first.
    pub closed spec fn log(&self) -> Seq<FileManagerActions> {
        self.dispatched@
    }

    /// The store invariant: the owned state satisfies the global state
    /// invariant. Established at construction and preserved by dispatch.
    pub open spec fn wf(&self) -> bool {
        app_wf(self.spec_state())
    }

    pub fn new(initial: AppState) -> (s: Store)
        requires
            app_wf(initial),
        ensures
            s.spec_state() == initial,
            s.log() == Seq::<FileManagerActions>::empty(),
            s.wf(),
    {
        Store { state: initial, dispatched: Vec::new() }
    }

    /// Read access to the current state; callable at any time.
    pub fn get_state(&self) -> (r: &AppState)
        ensures
            *r == self.spec_state(),
    {
        &self.state
    }

    /// The record of dispatched actions, oldest first.
    pub fn dispatched(&self) -> (r: &Vec<FileManagerActions>)
        ensures
            r@ == self.log(),
    {
        &self.dispatched
    }

    /// Synchronously applies the reducer for `action` to the current state,
    /// replacing it, and appends `action` to the dispatch record. The only
    /// path by which the state changes.
    pub fn dispatch(&mut self, action: FileManagerActions)
        requires
            old(self).wf(),
        ensures
            final(self).wf(),
            spec_reduced(old(self).spec_state(), action, final(self).spec_state()),
            final(self).log() == old(self).log().push(action),
    {
        apply(&mut self.state, &action);
        self.dispatched.push(action);
    }
}

/// Every single reducer step preserves the global state invariant; together
/// with `Store::new`, every state a store can reach is well formed.
pub proof fn lemma_reduced_preserves_wf(pre: AppState, a: FileManagerActions, post: AppState)
    requires
        app_wf(pre),
        spec_reduced(pre, a, post),
    ensures
        app_wf(post),
{
}

/// Single focus invariant: a well-formed store never has both panels focused.
pub proof fn lemma_store_single_focus(s: &Store)
    requires
        s.wf(),
    ensures
        !(s.spec_state().left_panel.is_focused && s.spec_state().right_panel.is_focused),
{
}

/// Selection validity: in a well-formed store, every tab of either panel has
/// a selection that is absent or a valid index into its items.
pub proof fn lemma_store_selection_valid(s: &Store)
    requires
        s.wf(),
    ensures
        forall|i: int|
            0 <= i < s.spec_state().left_panel.tabs@.len() ==> crate::state::tab_wf(
                #[trigger] s.spec_state().left_panel.tabs@[i],
            ),
        forall|i: int|
            0 <= i < s.spec_state().right_panel.tabs@.len() ==> crate::state::tab_wf(
                #[trigger] s.spec_state().right_panel.tabs@[i],
            ),
{
}

} // verus!
