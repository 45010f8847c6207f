//! The backend-facing edge of the core: decoding terminal key codes into
//! input events.
//!
//! The terminal itself (raw input polling, painting, clearing, refresh-rate
//! timers) is an external collaborator driven by the event loop around the
//! library; the core only decides, and this module holds the decision that
//! turns a raw key code into an [`Event`].

use vstd::prelude::*;

use crate::event::{Event, Key};

verus! {

/// The event a terminal key code denotes: named keys by their curses codes,
/// printable ASCII as characters, the resize signal, and a refresh tick for
/// everything else (including the negative timeout code).
pub open spec fn spec_keycode_event(code: int) -> Event {
    if code == 410 {
        Event::WindowResize
    } else if code == 10 || code == 13 {
        Event::Key(Key::Enter)
    } else if code == 9 {
        Event::Key(Key::Tab)
    } else if code == 27 {
        Event::Key(Key::Esc)
    } else if code == 258 {
        Event::Key(Key::Down)
    } else if code == 259 {
        Event::Key(Key::Up)
    } else if code == 260 {
        Event::Key(Key::Left)
    } else if code == 261 {
        Event::Key(Key::Right)
    } else if code == 263 || code == 127 {
        Event::Key(Key::Backspace)
    } else if 32 <= code && code <= 126 {
        Event::Char((code as u8) as char)
    } else {
        Event::Refresh
    }
}

/// Decodes one terminal key code into an input event.
pub fn keycode_event(code: i32) -> (r: Event)
    ensures
        r == spec_keycode_event(code as int),
{
    if code == 410 {
        Event::WindowResize
    } else if code == 10 || code == 13 {
        Event::Key(Key::Enter)
    } else if code == 9 {
        Event::Key(Key::Tab)
    } else if code == 27 {
        Event::Key(Key::Esc)
    } else if code == 258 {
        Event::Key(Key::Down)
    } else if code == 259 {
        Event::Key(Key::Up)
    } else if code == 260 {
        Event::Key(Key::Left)
    } else if code == 261 {
        Event::Key(Key::Right)
    } else if code == 263 || code == 127 {
        Event::Key(Key::Backspace)
    } else if 32 <= code && code <= 126 {
        Event::Char((code as u8) as char)
    } else {
        Event::Refresh
    }
}

} // verus!
