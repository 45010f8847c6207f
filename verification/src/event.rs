//! Input events, deferred callbacks, and the result value threaded through
//! event dispatch.

use vstd::prelude::*;

verus! {

/// A named (non-character) key.
#[derive(Clone, Copy, Debug, PartialEq, Eq, Structural)]
pub enum Key {
    /// The escape key; dismisses the menu bar when it has focus.
    Esc,
    /// The enter key; activates menu leaves and buttons.
    Enter,
    /// Left arrow.
    Left,
    /// Right arrow.
    Right,
    /// Up arrow.
    Up,
    /// Down arrow.
    Down,
    /// Backspace.
    Backspace,
    /// Horizontal tab.
    Tab,
}

/// One input event delivered by the terminal backend.
#[derive(Clone, Copy, Debug, PartialEq, Eq, Structural)]
pub enum Event {
    /// A printable character was typed.
    Char(char),
    /// A named key was pressed.
    Key(Key),
    /// The terminal was resized; the next draw must start from a cleared
    /// backend.
    WindowResize,
    /// A periodic tick produced by the refresh-rate timer, carrying no input.
    Refresh,
}

/// A deferred mutation of the application context.
///
/// Dispatch steps may hand one of these back; the context then applies it
/// with exclusive access to the whole view tree.  The set of commands is
/// closed, so applying one is ordinary verified code.
#[derive(Clone, Copy, Debug, PartialEq, Eq, Structural)]
pub enum Callback {
    /// Stop the event loop at the next iteration boundary.
    Quit,
    /// Remove the top layer of the active screen.
    PopLayer,
    /// Make the screen with the given id active; ignored if out of range.
    SetScreen(usize),
    /// Give the menu bar input focus.
    SelectMenubar,
    /// Set whether the menu bar hides itself while unfocused.
    SetAutohideMenu(bool),
    /// Do nothing.
    Noop,
}

/// The outcome of offering an event to a view.
#[derive(Clone, Copy, Debug, PartialEq, Eq, Structural)]
pub enum EventResult {
    /// The view did not want the event; the next candidate may try it.
    Ignored,
    /// The view consumed the event, optionally leaving a deferred callback.
    Consumed(Option<Callback>),
}

} // verus!
