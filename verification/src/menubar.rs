//! The focus-stealing menu bar.
//!
//! The bar is either inactive — skipped by event dispatch, drawn only when
//! `autohide` is off, where it reserves the top row — or active, in which
//! case it captures every input event until a dismissal key or a leaf
//! activation clears its focus.

use vstd::prelude::*;
use vstd::string::StringExecFns;

use crate::event::{Callback, Event, EventResult, Key};
use crate::printer::{spec_print, Frame, Printer};
use crate::xy::Vec2;

verus! {

/// One leaf entry of the menu bar: a label and the callback its activation
/// leaves behind.
#[derive(Clone, Debug, PartialEq, Eq)]
pub struct MenuItem {
    /// The label shown on the bar.
    pub label: String,
    /// The callback an activation leaves behind.
    pub action: Callback,
}

/// The mathematical value of a menu entry.
#[verifier::ext_equal]
pub struct MenuItemModel {
    /// The shown label.
    pub label: Seq<char>,
    /// The callback an activation leaves behind.
    pub action: Callback,
}

/// The mathematical value of the menu bar.
#[verifier::ext_equal]
pub struct MenubarModel {
    /// Whether the bar hides itself while unfocused.
    pub autohide: bool,
    /// Whether the bar has captured input focus.
    pub focused: bool,
    /// The index of the selected entry; 0 when the bar is empty.
    pub selected: int,
    /// The entries, left to right.
    pub items: Seq<MenuItemModel>,
}

impl MenubarModel {
    /// The selection always points at an entry (or at 0 in an empty bar).
    pub open spec fn wf(self) -> bool {
        if self.items.len() == 0 {
            self.selected == 0
        } else {
            0 <= self.selected < self.items.len()
        }
    }

    /// Whether the bar takes part in drawing: always when not auto-hiding,
    /// otherwise only while focused.
    pub open spec fn visible(self) -> bool {
        !self.autohide || self.focused
    }
}

/// The bar's reaction to an event while it has focus: escape dismisses it,
/// the arrow keys move the selection, enter activates the selected entry
/// (dismissing the bar and leaving the entry's callback), and anything else
/// is ignored.
pub open spec fn spec_menubar_on_event(m: MenubarModel, e: Event) -> (MenubarModel, EventResult) {
    if e == Event::Key(Key::Esc) {
        (MenubarModel { focused: false, ..m }, EventResult::Consumed(None))
    } else if e == Event::Key(Key::Left) {
        let s = if m.selected > 0 {
            m.selected - 1
        } else {
            0
        };
        (MenubarModel { selected: s, ..m }, EventResult::Consumed(None))
    } else if e == Event::Key(Key::Right) {
        let s = if m.selected + 1 < m.items.len() {
            m.selected + 1
        } else {
            m.selected
        };
        (MenubarModel { selected: s, ..m }, EventResult::Consumed(None))
    } else if e == Event::Key(Key::Enter) {
        if m.items.len() > 0 {
            (
                MenubarModel { focused: false, ..m },
                EventResult::Consumed(Some(m.items[m.selected].action)),
            )
        } else {
            (MenubarModel { focused: false, ..m }, EventResult::Consumed(None))
        }
    } else {
        (m, EventResult::Ignored)
    }
}

/// The text the first `n` entries put on the bar: the labels in order, each
/// followed by a two-space gap.
pub open spec fn spec_menu_text(items: Seq<MenuItemModel>, n: int) -> Seq<char>
    decreases n,
{
    if n <= 0 {
        Seq::empty()
    } else {
        spec_menu_text(items, n - 1) + items[n - 1].label + "  "@
    }
}

/// The grid after the bar paints itself: its entry labels land on the first
/// row of the printer's region.
pub open spec fn spec_menubar_draw(
    m: MenubarModel,
    p: Printer,
    grid: Seq<Seq<char>>,
    fsize: Vec2,
) -> Seq<Seq<char>> {
    spec_print(grid, fsize, p, Vec2 { x: 0, y: 0 }, spec_menu_text(m.items, m.items.len() as int))
}

/// The focus-stealing menu bar.
#[derive(Clone, Debug, PartialEq, Eq)]
pub struct Menubar {
    autohide: bool,
    focused: bool,
    selected: usize,
    items: Vec<MenuItem>,
}

impl Menubar {
    /// The mathematical value of this bar.
    pub closed spec fn model(self) -> MenubarModel {
        MenubarModel {
            autohide: self.autohide,
            focused: self.focused,
            selected: self.selected as int,
            items: self.items@.map_values(|i: MenuItem| MenuItemModel {
                label: i.label@,
                action: i.action,
            }),
        }
    }

    /// A fresh bar: unfocused, empty, always visible.
    pub fn new() -> (r: Menubar)
        ensures
            r.model() == (MenubarModel {
                autohide: false,
                focused: false,
                selected: 0,
                items: Seq::<MenuItemModel>::empty(),
            }),
            r.model().wf(),
    {
        let r = Menubar { autohide: false, focused: false, selected: 0, items: Vec::new() };
        proof {
            assert(r.model() =~~= (MenubarModel {
                autohide: false,
                focused: false,
                selected: 0,
                items: Seq::<MenuItemModel>::empty(),
            }));
        }
        r
    }

    /// Whether the bar hides itself while unfocused.
    pub fn autohide(&self) -> (r: bool)
        ensures
            r == self.model().autohide,
    {
        self.autohide
    }

    /// Sets whether the bar hides itself while unfocused.
    pub fn set_autohide(&mut self, autohide: bool)
        ensures
            final(self).model() == (MenubarModel { autohide, ..old(self).model() }),
    {
        self.autohide = autohide;
    }

    /// Gives the bar input focus; until dismissed it is offered every event
    /// first.
    pub fn take_focus(&mut self)
        ensures
            final(self).model() == (MenubarModel { focused: true, ..old(self).model() }),
    {
        self.focused = true;
    }

    /// Whether the bar has captured input focus.
    pub fn receive_events(&self) -> (r: bool)
        ensures
            r == self.model().focused,
    {
        self.focused
    }

    /// Whether the bar takes part in drawing.
    pub fn visible(&self) -> (r: bool)
        ensures
            r == self.model().visible(),
    {
        !self.autohide || self.focused
    }

    /// The index of the selected entry.
    pub fn selected(&self) -> (r: usize)
        ensures
            r == self.model().selected,
    {
        self.selected
    }

    /// How many entries the bar holds.
    pub fn len(&self) -> (r: usize)
        ensures
            r == self.model().items.len(),
    {
        self.items.len()
    }

    /// Appends a leaf entry to the bar.
    pub fn add_leaf(&mut self, label: &str, action: Callback)
        ensures
            final(self).model() == (MenubarModel {
                items: old(self).model().items.push(
                    MenuItemModel { label: label@, action },
                ),
                ..old(self).model()
            }),
            old(self).model().wf() ==> final(self).model().wf(),
    {
        self.items.push(MenuItem { label: label.to_owned(), action });
        proof {
            assert(self.model() =~~= (MenubarModel {
                items: old(self).model().items.push(
                    MenuItemModel { label: label@, action },
                ),
                ..old(self).model()
            }));
        }
    }

    /// Reacts to an event while focused.
    pub fn on_event(&mut self, event: Event) -> (r: EventResult)
        requires
            old(self).model().wf(),
        ensures
            final(self).model() == spec_menubar_on_event(old(self).model(), event).0,
            r == spec_menubar_on_event(old(self).model(), event).1,
            final(self).model().wf(),
    {
        if event == Event::Key(Key::Esc) {
            self.focused = false;
            let r = EventResult::Consumed(None);
            proof {
                assert(self.model() =~~= spec_menubar_on_event(old(self).model(), event).0);
            }
            r
        } else if event == Event::Key(Key::Left) {
            if self.selected > 0 {
                self.selected = self.selected - 1;
            }
            proof {
                assert(self.model() =~~= spec_menubar_on_event(old(self).model(), event).0);
            }
            EventResult::Consumed(None)
        } else if event == Event::Key(Key::Right) {
            let n = self.items.len();
            if n > 0 && self.selected < n - 1 {
                self.selected = self.selected + 1;
            }
            proof {
                assert(self.model() =~~= spec_menubar_on_event(old(self).model(), event).0);
            }
            EventResult::Consumed(None)
        } else if event == Event::Key(Key::Enter) {
            self.focused = false;
            let r = if self.items.len() > 0 {
                EventResult::Consumed(Some(self.items[self.selected].action))
            } else {
                EventResult::Consumed(None)
            };
            proof {
                assert(self.model() =~~= spec_menubar_on_event(old(self).model(), event).0);
            }
            r
        } else {
            proof {
                assert(self.model() =~~= spec_menubar_on_event(old(self).model(), event).0);
            }
            EventResult::Ignored
        }
    }

    /// Paints the bar's entries into the top row of the printer's region.
    pub fn draw(&self, p: &Printer, frame: &mut Frame)
        requires
            old(frame).wf(),
            p.wf(),
        ensures
            final(frame).wf(),
            final(frame).size == old(frame).size,
            final(frame).grid() == spec_menubar_draw(
                self.model(),
                *p,
                old(frame).grid(),
                old(frame).size,
            ),
    {
        let mut text = String::new();
        let n = self.items.len();
        let mut i: usize = 0;
        while i < n
            invariant
                n == self.items@.len(),
                i <= n,
                text@ == spec_menu_text(self.model().items, i as int),
            decreases n - i,
        {
            text.append(self.items[i].label.as_str());
            text.append("  ");
            i = i + 1;
        }
        p.print(frame, Vec2 { x: 0, y: 0 }, text.as_str());
    }
}

} // verus!
