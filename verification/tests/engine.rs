//! End-to-end tests of the store, the reducer and the root event routing.

use fm_core::actions::{
    AppAction, DirectoryAction, FileAction, FileManagerActions, PanelSide, TabAction,
};
use fm_core::component::Component;
use fm_core::events::{Event, KeyEvent};
use fm_core::file_system::FileSystemItem;
use fm_core::root::RootComponent;
use fm_core::state::{
    AppState, Config, KeyBinding, KeyboardConfig, ModalType, PanelState, TabState,
};
use fm_core::store::Store;

pub const QUIT: u32 = 1;
pub const FOCUS_LEFT: u32 = 2;
pub const FOCUS_RIGHT: u32 = 3;
pub const NEXT_ITEM: u32 = 4;
pub const PREV_ITEM: u32 = 5;
pub const OPEN: u32 = 6;
pub const DELETE: u32 = 7;
pub const MOVE_LEFT: u32 = 8;
pub const MOVE_RIGHT: u32 = 9;
pub const UNBOUND: u32 = 99;

pub fn key(code: u32) -> KeyEvent {
    KeyEvent { code, modifiers: 0 }
}

pub fn key_event(code: u32) -> Event {
    Event::Keyboard(key(code))
}

fn binding(code: u32) -> KeyBinding {
    KeyBinding::new(vec![key(code)])
}

pub fn config() -> Config {
    Config {
        keyboard_cfg: KeyboardConfig {
            quit: binding(QUIT),
            focus_left_panel: binding(FOCUS_LEFT),
            focus_right_panel: binding(FOCUS_RIGHT),
            next_tab_item: binding(NEXT_ITEM),
            prev_tab_item: binding(PREV_ITEM),
            open: binding(OPEN),
            delete: binding(DELETE),
            move_left: binding(MOVE_LEFT),
            move_right: binding(MOVE_RIGHT),
        },
    }
}

pub fn docs_items() -> Vec<FileSystemItem> {
    vec![
        FileSystemItem::Directory("docs".to_string()),
        FileSystemItem::File("a.txt".to_string()),
    ]
}

pub fn panel(
    items: Vec<FileSystemItem>,
    selected: Option<usize>,
    is_focused: bool,
) -> PanelState {
    PanelState::new(
        vec![TabState::new("home".to_string(), items, selected)],
        is_focused,
        0,
    )
}

/// Left panel focused on `[Directory("docs"), File("a.txt")]` with selection
/// 0; right panel unfocused and empty.
pub fn demo_state() -> AppState {
    AppState::new(
        panel(docs_items(), Some(0), true),
        panel(Vec::new(), None, false),
        config(),
    )
}

#[test]
fn binding_is_pressed() {
    let b = binding(QUIT);
    assert!(b.is_pressed(key(QUIT)));
    assert!(!b.is_pressed(key(OPEN)));
    assert!(!b.is_pressed(KeyEvent { code: QUIT, modifiers: 1 }));
}

#[test]
fn store_starts_with_initial_state_and_empty_log() {
    let store = Store::new(demo_state());
    assert!(store.get_state().left_panel.is_focused);
    assert!(!store.get_state().right_panel.is_focused);
    assert!(store.get_state().modal.is_none());
    assert!(!store.get_state().app_exit);
    assert_eq!(store.dispatched().len(), 0);
}

#[test]
fn dispatch_focus_right_switches_focus_exclusively() {
    let mut store = Store::new(demo_state());
    store.dispatch(FileManagerActions::App(AppAction::FocusRight));
    assert!(store.get_state().right_panel.is_focused);
    assert!(!store.get_state().left_panel.is_focused);
    store.dispatch(FileManagerActions::App(AppAction::FocusLeft));
    assert!(store.get_state().left_panel.is_focused);
    assert!(!store.get_state().right_panel.is_focused);
    assert_eq!(
        *store.dispatched(),
        vec![
            FileManagerActions::App(AppAction::FocusRight),
            FileManagerActions::App(AppAction::FocusLeft),
        ]
    );
}

#[test]
fn dispatch_exit_sets_exit_flag_only() {
    let mut store = Store::new(demo_state());
    store.dispatch(FileManagerActions::App(AppAction::Exit));
    assert!(store.get_state().app_exit);
    assert!(store.get_state().left_panel.is_focused);
    assert_eq!(store.get_state().left_panel.tabs[0].items, docs_items());
}

#[test]
fn tab_navigation_wraps_selection() {
    let mut store = Store::new(demo_state());
    store.dispatch(FileManagerActions::Tab(TabAction::Next));
    assert_eq!(store.get_state().left_panel.tabs[0].selected, Some(1));
    store.dispatch(FileManagerActions::Tab(TabAction::Next));
    assert_eq!(store.get_state().left_panel.tabs[0].selected, Some(0));
    store.dispatch(FileManagerActions::Tab(TabAction::Previous));
    assert_eq!(store.get_state().left_panel.tabs[0].selected, Some(1));
}

#[test]
fn tab_navigation_on_unselected_list_selects_ends() {
    let mut store = Store::new(AppState::new(
        panel(docs_items(), None, true),
        panel(Vec::new(), None, false),
        config(),
    ));
    store.dispatch(FileManagerActions::Tab(TabAction::Next));
    assert_eq!(store.get_state().left_panel.tabs[0].selected, Some(0));
}

#[test]
fn tab_navigation_on_empty_list_keeps_no_selection() {
    let mut store = Store::new(AppState::new(
        panel(Vec::new(), None, true),
        panel(Vec::new(), None, false),
        config(),
    ));
    store.dispatch(FileManagerActions::Tab(TabAction::Next));
    assert_eq!(store.get_state().left_panel.tabs[0].selected, None);
    store.dispatch(FileManagerActions::Tab(TabAction::Previous));
    assert_eq!(store.get_state().left_panel.tabs[0].selected, None);
}

#[test]
fn tab_navigation_without_focused_panel_changes_nothing() {
    let mut store = Store::new(AppState::new(
        panel(docs_items(), Some(0), false),
        panel(Vec::new(), None, false),
        config(),
    ));
    store.dispatch(FileManagerActions::Tab(TabAction::Next));
    assert_eq!(store.get_state().left_panel.tabs[0].selected, Some(0));
}

#[test]
fn directory_and_file_actions_leave_state_unchanged() {
    let mut store = Store::new(demo_state());
    store.dispatch(FileManagerActions::Directory(DirectoryAction::Delete {
        path: "docs".to_string(),
        tab: 0,
        panel: PanelSide::Left,
    }));
    store.dispatch(FileManagerActions::File(FileAction::Open {
        path: "a.txt".to_string(),
        tab: 0,
        panel: PanelSide::Left,
    }));
    assert_eq!(store.get_state().left_panel.tabs[0].items, docs_items());
    assert_eq!(store.get_state().left_panel.tabs[0].selected, Some(0));
    assert_eq!(store.dispatched().len(), 2);
}

#[test]
fn quit_key_dispatches_exactly_one_exit() {
    let mut store = Store::new(demo_state());
    let mut root = RootComponent::new();
    root.on_init(&store);
    let handled = root.handle_event(key_event(QUIT), &mut store);
    assert!(handled);
    assert_eq!(
        *store.dispatched(),
        vec![FileManagerActions::App(AppAction::Exit)]
    );
    assert!(store.get_state().app_exit);
}

#[test]
fn quit_key_bypasses_mounted_modal() {
    let mut store = Store::new(demo_state());
    store.dispatch(FileManagerActions::App(AppAction::OpenModal(
        ModalType::CreateModal {
            panel_side: PanelSide::Left,
            panel_tab: 0,
            panel_tab_path: "home".to_string(),
        },
    )));
    let mut root = RootComponent::new();
    root.on_init(&store);
    assert!(root.modal().is_some());
    let before = store.dispatched().len();
    let handled = root.handle_event(key_event(QUIT), &mut store);
    assert!(handled);
    assert_eq!(store.dispatched().len(), before + 1);
    assert_eq!(
        store.dispatched()[before],
        FileManagerActions::App(AppAction::Exit)
    );
}

#[test]
fn focus_right_key_dispatches_and_rederives() {
    let mut store = Store::new(demo_state());
    let mut root = RootComponent::new();
    root.on_init(&store);
    let handled = root.handle_event(key_event(FOCUS_RIGHT), &mut store);
    assert!(handled);
    assert_eq!(
        *store.dispatched(),
        vec![FileManagerActions::App(AppAction::FocusRight)]
    );
    assert!(store.get_state().right_panel.is_focused);
    assert!(!store.get_state().left_panel.is_focused);
    assert_eq!(
        root.local_state().as_ref().unwrap().focused_panel,
        Some(PanelSide::Right)
    );
    assert_eq!(root.right().props().as_ref().unwrap().is_focused, true);
    assert_eq!(root.left().props().as_ref().unwrap().is_focused, false);
}

#[test]
fn focus_key_is_handled_even_when_already_focused() {
    let mut store = Store::new(demo_state());
    let mut root = RootComponent::new();
    root.on_init(&store);
    let handled = root.handle_event(key_event(FOCUS_LEFT), &mut store);
    assert!(handled);
    assert_eq!(
        *store.dispatched(),
        vec![FileManagerActions::App(AppAction::FocusLeft)]
    );
    assert!(store.get_state().left_panel.is_focused);
}

#[test]
fn open_key_dispatches_directory_open_for_selected_directory() {
    let mut store = Store::new(demo_state());
    let mut root = RootComponent::new();
    root.on_init(&store);
    let handled = root.handle_event(key_event(OPEN), &mut store);
    assert!(handled);
    assert_eq!(
        *store.dispatched(),
        vec![FileManagerActions::Directory(DirectoryAction::Open {
            path: "docs".to_string(),
            tab: 0,
            panel: PanelSide::Left,
        })]
    );
}

#[test]
fn open_key_dispatches_file_open_for_selected_file() {
    let mut store = Store::new(AppState::new(
        panel(docs_items(), Some(1), true),
        panel(Vec::new(), None, false),
        config(),
    ));
    let mut root = RootComponent::new();
    root.on_init(&store);
    let handled = root.handle_event(key_event(OPEN), &mut store);
    assert!(handled);
    assert_eq!(
        *store.dispatched(),
        vec![FileManagerActions::File(FileAction::Open {
            path: "a.txt".to_string(),
            tab: 0,
            panel: PanelSide::Left,
        })]
    );
}

#[test]
fn delete_key_dispatches_file_delete_for_selected_file() {
    let mut store = Store::new(AppState::new(
        panel(docs_items(), Some(1), true),
        panel(Vec::new(), None, false),
        config(),
    ));
    let mut root = RootComponent::new();
    root.on_init(&store);
    let handled = root.handle_event(key_event(DELETE), &mut store);
    assert!(handled);
    assert_eq!(
        *store.dispatched(),
        vec![FileManagerActions::File(FileAction::Delete {
            path: "a.txt".to_string(),
            tab: 0,
            panel: PanelSide::Left,
        })]
    );
}

#[test]
fn open_key_sources_current_tab_index() {
    let tabs = vec![
        TabState::new("first".to_string(), Vec::new(), None),
        TabState::new("second".to_string(), docs_items(), Some(0)),
    ];
    let left = PanelState::new(tabs, true, 1);
    let mut store = Store::new(AppState::new(
        left,
        panel(Vec::new(), None, false),
        config(),
    ));
    let mut root = RootComponent::new();
    root.on_init(&store);
    let handled = root.handle_event(key_event(OPEN), &mut store);
    assert!(handled);
    assert_eq!(
        *store.dispatched(),
        vec![FileManagerActions::Directory(DirectoryAction::Open {
            path: "docs".to_string(),
            tab: 1,
            panel: PanelSide::Left,
        })]
    );
}

#[test]
fn open_key_without_selection_is_not_handled() {
    let mut store = Store::new(AppState::new(
        panel(docs_items(), None, true),
        panel(Vec::new(), None, false),
        config(),
    ));
    let mut root = RootComponent::new();
    root.on_init(&store);
    let handled = root.handle_event(key_event(OPEN), &mut store);
    assert!(!handled);
    assert_eq!(store.dispatched().len(), 0);
}

#[test]
fn unbound_key_is_not_handled() {
    let mut store = Store::new(demo_state());
    let mut root = RootComponent::new();
    root.on_init(&store);
    let handled = root.handle_event(key_event(UNBOUND), &mut store);
    assert!(!handled);
    assert_eq!(store.dispatched().len(), 0);
}

#[test]
fn move_keys_are_recognized_but_dispatch_nothing() {
    let mut store = Store::new(demo_state());
    let mut root = RootComponent::new();
    root.on_init(&store);
    let handled_right = root.handle_event(key_event(MOVE_RIGHT), &mut store);
    let handled_left = root.handle_event(key_event(MOVE_LEFT), &mut store);
    assert!(!handled_right);
    assert!(!handled_left);
    assert_eq!(store.dispatched().len(), 0);
}

#[test]
fn tick_event_is_not_handled_and_dispatches_nothing() {
    let mut store = Store::new(demo_state());
    let mut root = RootComponent::new();
    root.on_init(&store);
    let handled = root.handle_event(Event::Tick, &mut store);
    assert!(!handled);
    assert_eq!(store.dispatched().len(), 0);
}

#[test]
fn next_item_key_navigates_even_without_focus_on_tab() {
    // Navigation keys are always consumed by the first panel asked.
    let mut store = Store::new(AppState::new(
        panel(docs_items(), Some(0), false),
        panel(Vec::new(), None, true),
        config(),
    ));
    let mut root = RootComponent::new();
    root.on_init(&store);
    let handled = root.handle_event(key_event(NEXT_ITEM), &mut store);
    assert!(handled);
    assert_eq!(
        *store.dispatched(),
        vec![FileManagerActions::Tab(TabAction::Next)]
    );
    // The reducer navigates in the focused panel, here the right one: its
    // tab is empty, so its selection stays absent.
    assert_eq!(store.get_state().right_panel.tabs[0].selected, None);
}
