//! The closed action taxonomy: every state mutation request a component may
//! dispatch into the store. Pure data, no behavior.

use vstd::prelude::*;
use crate::state::ModalType;

verus! {

/// Which of the two symmetric panels a component or an action refers to.
#[derive(Clone, Copy, PartialEq, Eq, Structural, Debug)]
pub enum PanelSide {
    Left,
    Right,
}

/// Application-level actions: quitting, switching focus, opening or closing
/// the modal overlay.
#[derive(Debug, PartialEq)]
pub enum AppAction {
    Exit,
    FocusLeft,
    FocusRight,
    OpenModal(ModalType),
    CloseModal,
}

/// Navigation within the currently focused tab's item list.
#[derive(Clone, Copy, PartialEq, Eq, Structural, Debug)]
pub enum TabAction {
    Next,
    Previous,
}

/// Requests against a directory entry; the filesystem collaborator performs
/// the side effect and reports back by dispatching further actions.
#[derive(Debug, PartialEq)]
pub enum DirectoryAction {
    Open { path: String, tab: usize, panel: PanelSide },
    Delete { path: String, tab: usize, panel: PanelSide },
}

/// Requests against a file entry, handled like [`DirectoryAction`].
#[derive(Debug, PartialEq)]
pub enum FileAction {
    Open { path: String, tab: usize, panel: PanelSide },
    Delete { path: String, tab: usize, panel: PanelSide },
}

/// The full action type accepted by the store.
#[derive(Debug, PartialEq)]
pub enum FileManagerActions {
    App(AppAction),
    Tab(TabAction),
    Directory(DirectoryAction),
    File(FileAction),
}

} // verus!
