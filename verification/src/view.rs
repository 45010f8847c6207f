//! The closed set of displayable nodes and the capability contract they
//! share: layout, draw, event handling, and identity lookup.
//!
//! The node set is a tagged enumeration, so the type-erased lookup of the
//! context can check a node's runtime kind before handing out a reference.

use vstd::prelude::*;

use crate::event::{Callback, Event, EventResult, Key};
use crate::printer::{spec_print, Frame, Printer};
use crate::xy::Vec2;

verus! {

/// A block of text; ignores every event.
#[derive(Clone, Debug, PartialEq, Eq)]
pub struct TextView {
    /// The text shown on the view's first row.
    pub content: String,
    /// The size handed to the last layout pass.
    pub size: Vec2,
}

/// A one-line button; consumes the enter key and leaves its action as a
/// deferred callback.
#[derive(Clone, Debug, PartialEq, Eq)]
pub struct Button {
    /// The label shown on the view's first row.
    pub label: String,
    /// The callback left behind when the button is activated.
    pub action: Callback,
    /// The size handed to the last layout pass.
    pub size: Vec2,
}

/// One displayable node.
#[derive(Clone, Debug, PartialEq, Eq)]
pub enum Widget {
    /// A text block.
    Text(TextView),
    /// A button.
    Button(Button),
}

/// The runtime kind of a node, used by the typed lookup.
#[derive(Clone, Copy, Debug, PartialEq, Eq, Structural)]
pub enum WidgetKind {
    /// The node is a [`TextView`].
    Text,
    /// The node is a [`Button`].
    Button,
}

/// The mathematical value of a node: its text as a character sequence.
pub enum WidgetModel {
    /// A text block.
    Text {
        /// The shown text.
        content: Seq<char>,
        /// The size of the last layout pass.
        size: Vec2,
    },
    /// A button.
    Button {
        /// The shown label.
        label: Seq<char>,
        /// The deferred callback of the button.
        action: Callback,
        /// The size of the last layout pass.
        size: Vec2,
    },
}

impl WidgetModel {
    /// The runtime kind of the modelled node.
    pub open spec fn kind(self) -> WidgetKind {
        match self {
            WidgetModel::Text { .. } => WidgetKind::Text,
            WidgetModel::Button { .. } => WidgetKind::Button,
        }
    }

    /// The model after a layout pass against `size`.
    pub open spec fn with_size(self, size: Vec2) -> WidgetModel {
        match self {
            WidgetModel::Text { content, .. } => WidgetModel::Text { content, size },
            WidgetModel::Button { label, action, .. } => WidgetModel::Button {
                label,
                action,
                size,
            },
        }
    }

    /// The text the node paints on its first row.
    pub open spec fn shown_text(self) -> Seq<char> {
        match self {
            WidgetModel::Text { content, .. } => content,
            WidgetModel::Button { label, .. } => label,
        }
    }
}

/// The result a node gives an event: text ignores everything, a button
/// consumes the enter key and leaves its action behind.
pub open spec fn spec_widget_on_event(m: WidgetModel, e: Event) -> EventResult {
    match m {
        WidgetModel::Text { .. } => EventResult::Ignored,
        WidgetModel::Button { action, .. } => {
            if e == Event::Key(Key::Enter) {
                EventResult::Consumed(Some(action))
            } else {
                EventResult::Ignored
            }
        },
    }
}

/// The grid after a node paints itself: its text lands on the first row of
/// the printer's region.
pub open spec fn spec_widget_draw(
    m: WidgetModel,
    p: Printer,
    grid: Seq<Seq<char>>,
    fsize: Vec2,
) -> Seq<Seq<char>> {
    spec_print(grid, fsize, p, Vec2 { x: 0, y: 0 }, m.shown_text())
}

impl Widget {
    /// The mathematical value of this node.
    pub open spec fn model(self) -> WidgetModel {
        match self {
            Widget::Text(t) => WidgetModel::Text { content: t.content@, size: t.size },
            Widget::Button(b) => WidgetModel::Button {
                label: b.label@,
                action: b.action,
                size: b.size,
            },
        }
    }

    /// The runtime kind of this node.
    pub fn kind(&self) -> (r: WidgetKind)
        ensures
            r == self.model().kind(),
    {
        match self {
            Widget::Text(_) => WidgetKind::Text,
            Widget::Button(_) => WidgetKind::Button,
        }
    }

    /// Records the available size; a leaf has no further geometry to
    /// compute, and laying out twice against one size changes nothing more.
    pub fn layout(&mut self, size: Vec2)
        ensures
            final(self).model() == old(self).model().with_size(size),
    {
        match self {
            Widget::Text(t) => {
                t.size = size;
            },
            Widget::Button(b) => {
                b.size = size;
            },
        }
    }

    /// Paints this node into the given frame through the printer.
    pub fn draw(&self, p: &Printer, frame: &mut Frame)
        requires
            old(frame).wf(),
            p.wf(),
        ensures
            final(frame).wf(),
            final(frame).size == old(frame).size,
            final(frame).grid() == spec_widget_draw(
                self.model(),
                *p,
                old(frame).grid(),
                old(frame).size,
            ),
    {
        match self {
            Widget::Text(t) => p.print(frame, Vec2 { x: 0, y: 0 }, t.content.as_str()),
            Widget::Button(b) => p.print(frame, Vec2 { x: 0, y: 0 }, b.label.as_str()),
        }
    }

    /// Offers an event to this node; the closed node set never mutates
    /// itself while reacting, so a shared borrow suffices.
    pub fn on_event(&self, event: Event) -> (r: EventResult)
        ensures
            r == spec_widget_on_event(self.model(), event),
    {
        match self {
            Widget::Text(_) => EventResult::Ignored,
            Widget::Button(b) => {
                if event == Event::Key(Key::Enter) {
                    EventResult::Consumed(Some(b.action))
                } else {
                    EventResult::Ignored
                }
            },
        }
    }
}

} // verus!
