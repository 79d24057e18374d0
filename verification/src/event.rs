use vstd::prelude::*;
use crate::modes::PathIndex;

verus! {

/// A single key press, as the input driver reports it.
#[derive(Clone, Copy, PartialEq, Eq, Structural)]
pub enum Key {
    Char(char),
    Ctrl(char),
    Enter,
    Esc,
    Backspace,
    Tab,
}

/// One message on the core's event queue. Events are produced by the
/// input driver, the terminal-resize signal, and the background indexing
/// task, and are consumed exactly once, in arrival order.
pub enum Event {
    Key(Key),
    Resize,
    OpenModeIndexComplete(PathIndex),
}

} // verus!
