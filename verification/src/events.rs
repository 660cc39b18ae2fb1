//! Input events fed to the component tree by an external event loop.

use vstd::prelude::*;

verus! {

/// A keyboard event, reduced to the data the engine reads: a key code and the
/// modifier bits active when it was pressed. Key bindings treat these as
/// opaque values to compare against.
#[derive(Clone, Copy, PartialEq, Eq, Structural, Debug)]
pub struct KeyEvent {
    pub code: u32,
    pub modifiers: u8,
}

/// One input event. `Tick` stands for any non-keyboard event (timer, resize);
/// the engine routes it to the panels untouched.
#[derive(Clone, Copy, PartialEq, Eq, Structural, Debug)]
pub enum Event {
    Keyboard(KeyEvent),
    Tick,
}

} // verus!
