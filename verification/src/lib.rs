//! Runtime core of a terminal user-interface toolkit.
//!
//! A [`Cursive`] value owns a list of screens (each a stack of full-area
//! view layers), a focus-stealing menu bar, a theme, and a table of global
//! key bindings.  It exposes the mutation API application callbacks use to
//! edit the view tree, and the layout / draw / event-dispatch operations
//! that an event loop drives once per iteration.

pub mod backend;
pub mod event;
pub mod menubar;
pub mod printer;
pub mod stack_view;
pub mod theme;
pub mod view;
pub mod xy;

pub use event::{Callback, Event, EventResult, Key};
pub use menubar::Menubar;
pub use printer::{Frame, Printer};
pub use stack_view::{Layer, Selector, StackView};
pub use theme::{Theme, ThemeError};
pub use view::{Button, TextView, Widget, WidgetKind};
pub use xy::Vec2;

use vstd::prelude::*;

use crate::menubar::{spec_menubar_draw, spec_menubar_on_event, MenubarModel};
use crate::stack_view::{
    spec_draw_stack, spec_find, spec_stack_on_event, vec_mut, LayerModel,
};

verus! {

/// Identifies a screen in the context's screen list.
pub type ScreenId = usize;

/// The error reported when a screen id names no screen.
#[derive(Clone, Copy, Debug, PartialEq, Eq, Structural)]
pub enum ScreenError {
    /// The id is not an index into the screen list.
    OutOfRange,
}

/// The mathematical value of the whole application context.
#[verifier::ext_equal]
pub struct CursiveModel {
    /// The current theme.
    pub theme: Theme,
    /// The screens, each a stack of layers, in creation order.
    pub screens: Seq<Seq<LayerModel>>,
    /// The global key-binding table, in registration order.
    pub callbacks: Seq<(Event, Callback)>,
    /// The menu bar.
    pub menubar: MenubarModel,
    /// The index of the active screen.
    pub active_screen: int,
    /// Whether the event loop keeps going.
    pub running: bool,
    /// The refresh rate, in frames per second; 0 disables periodic ticks.
    pub fps: u32,
    /// The size the last layout pass ran against.
    pub screen_size: Vec2,
}

impl CursiveModel {
    /// The context invariant: the active index names a screen, bindings are
    /// unique per key, and the menu bar's selection is in bounds.
    pub open spec fn wf(self) -> bool {
        &&& 0 <= self.active_screen < self.screens.len()
        &&& self.menubar.wf()
        &&& forall|i: int, j: int|
            0 <= i < j < self.callbacks.len() ==> (#[trigger] self.callbacks[i]).0 != (
            #[trigger] self.callbacks[j]).0
    }

    /// The layers of the active screen.
    pub open spec fn active_layers(self) -> Seq<LayerModel> {
        self.screens[self.active_screen]
    }
}

/// The index of the latest binding for `e` among the first `n` entries.
pub open spec fn spec_key_index_from(cbs: Seq<(Event, Callback)>, e: Event, n: int) -> Option<
    int,
>
    decreases n,
{
    if n <= 0 {
        None
    } else if cbs[n - 1].0 == e {
        Some(n - 1)
    } else {
        spec_key_index_from(cbs, e, n - 1)
    }
}

/// The index of the latest binding for `e`, if any.
pub open spec fn spec_key_index(cbs: Seq<(Event, Callback)>, e: Event) -> Option<int> {
    spec_key_index_from(cbs, e, cbs.len() as int)
}

/// The callback the table yields for `e`: the latest one registered.
pub open spec fn spec_lookup(cbs: Seq<(Event, Callback)>, e: Event) -> Option<Callback> {
    match spec_key_index(cbs, e) {
        Some(i) => Some(cbs[i].1),
        None => None,
    }
}

/// The table after registering `cb` for `e`: an existing binding for `e` is
/// overwritten, any other key keeps its binding.
pub open spec fn spec_cb_insert(
    cbs: Seq<(Event, Callback)>,
    e: Event,
    cb: Callback,
) -> Seq<(Event, Callback)> {
    match spec_key_index(cbs, e) {
        Some(i) => cbs.update(i, (e, cb)),
        None => cbs.push((e, cb)),
    }
}

/// A stack after its top layer is removed; an empty stack stays empty.
pub open spec fn spec_pop(ms: Seq<LayerModel>) -> Seq<LayerModel> {
    if ms.len() == 0 {
        ms
    } else {
        ms.drop_last()
    }
}

/// The context after one deferred callback runs with exclusive access.
pub open spec fn spec_run_cb(m: CursiveModel, cb: Callback) -> CursiveModel {
    match cb {
        Callback::Quit => CursiveModel { running: false, ..m },
        Callback::PopLayer => CursiveModel {
            screens: m.screens.update(m.active_screen, spec_pop(m.active_layers())),
            ..m
        },
        Callback::SetScreen(i) => {
            if 0 <= i < m.screens.len() {
                CursiveModel { active_screen: i as int, ..m }
            } else {
                m
            }
        },
        Callback::SelectMenubar => CursiveModel {
            menubar: MenubarModel { focused: true, ..m.menubar },
            ..m
        },
        Callback::SetAutohideMenu(b) => CursiveModel {
            menubar: MenubarModel { autohide: b, ..m.menubar },
            ..m
        },
        Callback::Noop => m,
    }
}

/// The context after the global key-binding table handles an event the
/// focused view path ignored: a bound callback runs, a missing binding is
/// silently ignored.
pub open spec fn spec_global_event(m: CursiveModel, e: Event) -> CursiveModel {
    match spec_lookup(m.callbacks, e) {
        Some(cb) => spec_run_cb(m, cb),
        None => m,
    }
}

/// The context after one event is dispatched.
///
/// A focused menu bar is offered the event first and suppresses every other
/// candidate; otherwise the active screen's top layer is offered it, and
/// only if that layer ignores it does the global table get its turn.
pub open spec fn spec_dispatch(m: CursiveModel, e: Event) -> CursiveModel {
    if m.menubar.focused {
        let step = spec_menubar_on_event(m.menubar, e);
        let m2 = CursiveModel { menubar: step.0, ..m };
        match step.1 {
            EventResult::Consumed(Some(cb)) => spec_run_cb(m2, cb),
            _ => m2,
        }
    } else {
        match spec_stack_on_event(m.active_layers(), e) {
            EventResult::Ignored => spec_global_event(m, e),
            EventResult::Consumed(Some(cb)) => spec_run_cb(m, cb),
            EventResult::Consumed(None) => m,
        }
    }
}

/// A stack after a layout pass: every layer laid out against the full size.
pub open spec fn spec_layout_stack(ms: Seq<LayerModel>, size: Vec2) -> Seq<LayerModel> {
    ms.map_values(
        |l: LayerModel| LayerModel { id: l.id, widget: l.widget.with_size(size) },
    )
}

/// The context after a layout pass against the given terminal size.
pub open spec fn spec_cursive_layout(m: CursiveModel, size: Vec2) -> CursiveModel {
    CursiveModel {
        screens: m.screens.update(m.active_screen, spec_layout_stack(m.active_layers(), size)),
        screen_size: size,
        ..m
    }
}

/// The printer the active screen is drawn with: the full frame, moved down
/// one row exactly when the menu bar reserves its row (`autohide` off), and
/// focused exactly when the bar is not.
pub open spec fn spec_screen_printer(m: CursiveModel, fsize: Vec2) -> Printer {
    let p = (Printer {
        offset: (Vec2 { x: 0usize, y: 0usize }),
        size: fsize,
        focused: true,
        theme: m.theme,
    });
    let off: usize = if m.menubar.autohide {
        0usize
    } else {
        1usize
    };
    p.spec_sub_printer(Vec2 { x: 0usize, y: off }, fsize, !m.menubar.focused)
}

/// The grid after one full draw pass: the menu bar first when visible (its
/// sub-printer receives events exactly when the bar is focused), then the
/// active screen into the remaining area.
pub open spec fn spec_cursive_draw(
    m: CursiveModel,
    grid: Seq<Seq<char>>,
    fsize: Vec2,
) -> Seq<Seq<char>> {
    let p = (Printer {
        offset: (Vec2 { x: 0usize, y: 0usize }),
        size: fsize,
        focused: true,
        theme: m.theme,
    });
    let g1 = if m.menubar.visible() {
        spec_menubar_draw(
            m.menubar,
            p.spec_sub_printer(Vec2 { x: 0usize, y: 0usize }, fsize, m.menubar.focused),
            grid,
            fsize,
        )
    } else {
        grid
    };
    spec_draw_stack(m.active_layers(), spec_screen_printer(m, fsize), g1, fsize)
}

/// The model of a freshly built context: the default theme, one empty
/// active screen, no bindings, a fresh menu bar, and the running flag set.
pub open spec fn spec_new_model() -> CursiveModel {
    CursiveModel {
        theme: Theme::spec_default(),
        screens: seq![Seq::<LayerModel>::empty()],
        callbacks: Seq::empty(),
        menubar: MenubarModel {
            autohide: false,
            focused: false,
            selected: 0,
            items: Seq::empty(),
        },
        active_screen: 0,
        running: true,
        fps: 0,
        screen_size: (Vec2 { x: 0usize, y: 0usize }),
    }
}

/// Central part of the library: the application context.
///
/// It owns the theme, the screens, the global key-binding table, the menu
/// bar and the running flag.  Populate it with layers and callbacks, then
/// drive it from an event loop: layout, draw, poll, dispatch, once per
/// iteration, while [`Cursive::is_running`] holds.
#[derive(Debug)]
pub struct Cursive {
    theme: Theme,
    screens: Vec<StackView>,
    global_callbacks: Vec<(Event, Callback)>,
    menubar: Menubar,
    active_screen: ScreenId,
    running: bool,
    fps: u32,
    last_size: Vec2,
}

impl Cursive {
    /// The mathematical value of this context.
    pub closed spec fn model(self) -> CursiveModel {
        CursiveModel {
            theme: self.theme,
            screens: self.screens@.map_values(|s: StackView| s.model()),
            callbacks: self.global_callbacks@,
            menubar: self.menubar.model(),
            active_screen: self.active_screen as int,
            running: self.running,
            fps: self.fps,
            screen_size: self.last_size,
        }
    }

    /// The context invariant.
    pub open spec fn wf(self) -> bool {
        self.model().wf()
    }

    /// Creates a new context: one empty active screen, the default theme,
    /// no bindings, and the running flag set.
    pub fn new() -> (r: Cursive)
        ensures
            r.wf(),
            r.model() == spec_new_model(),
    {
        let mut screens: Vec<StackView> = Vec::new();
        screens.push(StackView::new());
        let r = Cursive {
            theme: theme::load_default(),
            screens,
            global_callbacks: Vec::new(),
            menubar: Menubar::new(),
            active_screen: 0,
            running: true,
            fps: 0,
            last_size: Vec2 { x: 0, y: 0 },
        };
        proof {
            assert(r.model() =~~= spec_new_model());
        }
        r
    }

    /// Gives the menu bar input focus: until dismissed it is offered every
    /// event first.
    pub fn select_menubar(&mut self)
        requires
            old(self).wf(),
        ensures
            final(self).wf(),
            final(self).model() == (CursiveModel {
                menubar: (MenubarModel { focused: true, ..old(self).model().menubar }),
                ..old(self).model()
            }),
    {
        self.menubar.take_focus();
        proof {
            assert(self.model() =~~= (CursiveModel {
                menubar: (MenubarModel { focused: true, ..old(self).model().menubar }),
                ..old(self).model()
            }));
        }
    }

    /// Sets the menu bar's auto-hide mode: when on, the bar is only drawn
    /// while focused; when off, it always reserves the top row.
    pub fn set_autohide_menu(&mut self, autohide: bool)
        requires
            old(self).wf(),
        ensures
            final(self).wf(),
            final(self).model() == (CursiveModel {
                menubar: (MenubarModel { autohide, ..old(self).model().menubar }),
                ..old(self).model()
            }),
    {
        self.menubar.set_autohide(autohide);
        proof {
            assert(self.model() =~~= (CursiveModel {
                menubar: (MenubarModel { autohide, ..old(self).model().menubar }),
                ..old(self).model()
            }));
        }
    }

    /// Hands out the menu bar, so entries can be added to it.
    pub fn menubar(&mut self) -> (r: &mut Menubar)
        ensures
            (*r).model() == old(self).model().menubar,
            final(self).model() == (CursiveModel {
                menubar: final(r).model(),
                ..old(self).model()
            }),
            (old(self).wf() && final(r).model().wf()) ==> final(self).wf(),
    {
        &mut self.menubar
    }

    /// The currently used theme.
    pub fn current_theme(&self) -> (r: &Theme)
        ensures
            *r == self.model().theme,
    {
        &self.theme
    }

    /// Loads a theme from TOML text: on success the current theme is
    /// replaced wholesale; text that does not parse is reported and leaves
    /// the context untouched.
    pub fn load_theme(&mut self, content: &str) -> (r: Result<(), ThemeError>)
        requires
            old(self).wf(),
        ensures
            final(self).wf(),
            (match theme::spec_theme_of_text(content@) {
                Some(t) => r == Ok::<(), ThemeError>(()) && final(self).model() == (CursiveModel {
                    theme: t,
                    ..old(self).model()
                }),
                None => r == Err::<(), ThemeError>(ThemeError::Parse) && *final(self) == *old(self),
            }),
    {
        match theme::load_theme(content) {
            Ok(t) => {
                self.theme = t;
                Ok(())
            },
            Err(e) => Err(e),
        }
    }

    /// Sets the refresh rate, in frames per second, between 0 and 1000;
    /// 0 disables periodic redraw ticks.  The event loop's driver reads it
    /// back to configure the backend's poll timeout.
    pub fn set_fps(&mut self, fps: u32)
        requires
            old(self).wf(),
            fps <= 1000,
        ensures
            final(self).wf(),
            final(self).model() == (CursiveModel { fps, ..old(self).model() }),
    {
        self.fps = fps;
        proof {
            assert(self.model() =~~= (CursiveModel { fps, ..old(self).model() }));
        }
    }

    /// The configured refresh rate, in frames per second.
    pub fn fps(&self) -> (r: u32)
        ensures
            r == self.model().fps,
    {
        self.fps
    }

    /// The currently active screen.
    pub fn screen(&self) -> (r: &StackView)
        requires
            self.wf(),
        ensures
            r.model() == self.model().active_layers(),
    {
        &self.screens[self.active_screen]
    }

    /// The currently active screen, mutably.
    pub fn screen_mut(&mut self) -> (r: &mut StackView)
        requires
            old(self).wf(),
        ensures
            (*r).model() == old(self).model().active_layers(),
            final(self).model().screens.len() == old(self).model().screens.len(),
            final(self).model().screens[old(self).model().active_screen] == final(r).model(),
            forall|k: int|
                0 <= k < old(self).model().screens.len() && k != old(self).model().active_screen
                    ==> #[trigger] final(self).model().screens[k] == old(self).model().screens[k],
            final(self).model().theme == old(self).model().theme,
            final(self).model().callbacks == old(self).model().callbacks,
            final(self).model().menubar == old(self).model().menubar,
            final(self).model().active_screen == old(self).model().active_screen,
            final(self).model().running == old(self).model().running,
    {
        vec_mut(&mut self.screens, self.active_screen)
    }

    /// The id of the currently active screen.
    pub fn active_screen(&self) -> (r: ScreenId)
        ensures
            r == self.model().active_screen,
    {
        self.active_screen
    }

    /// Adds a new, empty screen and returns its id; the active screen is
    /// unchanged.
    pub fn add_screen(&mut self) -> (r: ScreenId)
        requires
            old(self).wf(),
        ensures
            final(self).wf(),
            r == old(self).model().screens.len(),
            final(self).model() == (CursiveModel {
                screens: old(self).model().screens.push(Seq::empty()),
                ..old(self).model()
            }),
    {
        let res = self.screens.len();
        self.screens.push(StackView::new());
        proof {
            assert(self.model() =~~= (CursiveModel {
                screens: old(self).model().screens.push(Seq::empty()),
                ..old(self).model()
            }));
        }
        res
    }

    /// Adds a new, empty screen and makes it active.
    pub fn add_active_screen(&mut self) -> (r: ScreenId)
        requires
            old(self).wf(),
        ensures
            final(self).wf(),
            r == old(self).model().screens.len(),
            final(self).model() == (CursiveModel {
                screens: old(self).model().screens.push(Seq::empty()),
                active_screen: old(self).model().screens.len() as int,
                ..old(self).model()
            }),
    {
        let res = self.add_screen();
        let outcome = self.set_screen(res);
        proof {
            assert(outcome is Ok);
        }
        res
    }

    /// Makes the screen with the given id active.  An id that names no
    /// screen is reported as an error and mutates nothing, so the active
    /// index always stays in bounds.
    pub fn set_screen(&mut self, screen_id: ScreenId) -> (r: Result<(), ScreenError>)
        requires
            old(self).wf(),
        ensures
            final(self).wf(),
            screen_id < old(self).model().screens.len() ==> r == Ok::<(), ScreenError>(())
                && final(self).model() == (CursiveModel {
                active_screen: screen_id as int,
                ..old(self).model()
            }),
            screen_id >= old(self).model().screens.len() ==> r == Err::<(), ScreenError>(
                ScreenError::OutOfRange,
            ) && *final(self) == *old(self),
    {
        if screen_id >= self.screens.len() {
            Err(ScreenError::OutOfRange)
        } else {
            self.active_screen = screen_id;
            Ok(())
        }
    }

    /// The name a selector queries for.
    pub open spec fn spec_selector_id(sel: Selector) -> Seq<char> {
        match sel {
            Selector::Id(s) => s@,
        }
    }

    /// Looks up a view in the active screen by selector and expected kind.
    ///
    /// The topmost layer registered under the name wins.  No match, or a
    /// match whose runtime kind differs from the expected one, yields
    /// nothing and leaves the context untouched; a match of the right kind
    /// is handed out as a mutable reference into the still-owned tree.
    pub fn find<'a>(&'a mut self, sel: &Selector, expected: WidgetKind) -> (r: Option<
        &'a mut Widget,
    >)
        requires
            old(self).wf(),
        ensures
            final(self).model().screens.len() == old(self).model().screens.len(),
            final(self).model().theme == old(self).model().theme,
            final(self).model().callbacks == old(self).model().callbacks,
            final(self).model().menubar == old(self).model().menubar,
            final(self).model().active_screen == old(self).model().active_screen,
            final(self).model().running == old(self).model().running,
            forall|k: int|
                0 <= k < old(self).model().screens.len() && k != old(self).model().active_screen
                    ==> #[trigger] final(self).model().screens[k] == old(self).model().screens[k],
            (match spec_find(old(self).model().active_layers(), Self::spec_selector_id(*sel)) {
                None => r is None && *final(self) == *old(self),
                Some(j) => {
                    if old(self).model().active_layers()[j].widget.kind() == expected {
                        r is Some && (*r.unwrap()).model() == old(self).model().active_layers()[j].widget && final(self).model().active_layers().len() == old(self).model().active_layers().len()
                            && final(self).model().active_layers()[j].id == old(self).model().active_layers()[j].id && final(self).model().active_layers()[j].widget == (*final(r.unwrap())).model() && (
                        forall|t: int|
                            0 <= t < old(self).model().active_layers().len() && t != j
                                ==> #[trigger] final(self).model().active_layers()[t] == old(self).model().active_layers()[t])
                    } else {
                        r is None && *final(self) == *old(self)
                    }
                },
            }),
    {
        let name: &str = match sel {
            Selector::Id(s) => *s,
        };
        let found = self.screens[self.active_screen].find_index(name);
        match found {
            None => None,
            Some(j) => {
                let kind_here = self.screens[self.active_screen].widget_at(j).kind();
                if kind_here == expected {
                    let sv = vec_mut(&mut self.screens, self.active_screen);
                    Some(sv.widget_mut(j))
                } else {
                    None
                }
            },
        }
    }

    /// Looks up a view in the active screen by name and expected kind; the
    /// named form of [`Cursive::find`].
    pub fn find_id<'a>(&'a mut self, id: &str, expected: WidgetKind) -> (r: Option<
        &'a mut Widget,
    >)
        requires
            old(self).wf(),
        ensures
            final(self).model().screens.len() == old(self).model().screens.len(),
            final(self).model().theme == old(self).model().theme,
            final(self).model().callbacks == old(self).model().callbacks,
            final(self).model().menubar == old(self).model().menubar,
            final(self).model().active_screen == old(self).model().active_screen,
            final(self).model().running == old(self).model().running,
            forall|k: int|
                0 <= k < old(self).model().screens.len() && k != old(self).model().active_screen
                    ==> #[trigger] final(self).model().screens[k] == old(self).model().screens[k],
            (match spec_find(old(self).model().active_layers(), id@) {
                None => r is None && *final(self) == *old(self),
                Some(j) => {
                    if old(self).model().active_layers()[j].widget.kind() == expected {
                        r is Some && (*r.unwrap()).model() == old(self).model().active_layers()[j].widget && final(self).model().active_layers().len() == old(self).model().active_layers().len()
                            && final(self).model().active_layers()[j].id == old(self).model().active_layers()[j].id && final(self).model().active_layers()[j].widget == (*final(r.unwrap())).model() && (
                        forall|t: int|
                            0 <= t < old(self).model().active_layers().len() && t != j
                                ==> #[trigger] final(self).model().active_layers()[t] == old(self).model().active_layers()[t])
                    } else {
                        r is None && *final(self) == *old(self)
                    }
                },
            }),
    {
        self.find(&Selector::Id(id), expected)
    }

    /// Registers a global callback for an event; it fires when no view
    /// consumes the event.  Registering twice for one key leaves only the
    /// second callback in effect.
    #[verifier::loop_isolation(false)]
    pub fn add_global_callback(&mut self, event: Event, cb: Callback)
        requires
            old(self).wf(),
        ensures
            final(self).wf(),
            final(self).model() == (CursiveModel {
                callbacks: spec_cb_insert(old(self).model().callbacks, event, cb),
                ..old(self).model()
            }),
    {
        let n = self.global_callbacks.len();
        let mut i: usize = n;
        while i > 0
            invariant
                *self == *old(self),
                n == self.global_callbacks@.len(),
                i <= n,
                spec_key_index(self.global_callbacks@, event) == spec_key_index_from(
                    self.global_callbacks@,
                    event,
                    i as int,
                ),
            decreases i,
        {
            if self.global_callbacks[i - 1].0 == event {
                assert(spec_key_index(self.global_callbacks@, event) == Some(i - 1));
                self.global_callbacks.set(i - 1, (event, cb));
                proof {
                    assert forall|j: int| 0 <= j < n implies (#[trigger] self.global_callbacks@[j]).0
                        == (old(self).global_callbacks@[j]).0 by {
                        assert(self.global_callbacks@ == old(self).global_callbacks@.update(
                            i - 1,
                            (event, cb),
                        ));
                    }
                    lemma_key_index_keys_equal(
                        old(self).global_callbacks@,
                        self.global_callbacks@,
                        event,
                        n as int,
                    );
                    assert(self.model() =~~= (CursiveModel {
                        callbacks: spec_cb_insert(old(self).model().callbacks, event, cb),
                        ..old(self).model()
                    }));
                    assert forall|p: int, q: int|
                        0 <= p < q < self.global_callbacks@.len() implies (
                    self.global_callbacks@[p]).0 != (self.global_callbacks@[q]).0 by {
                        assert(old(self).model().callbacks == old(self).global_callbacks@);
                        assert((old(self).model().callbacks[p]).0 != (old(
                            self,
                        ).model().callbacks[q]).0);
                    }
                }
                return ;
            }
            i = i - 1;
        }
        proof {
            lemma_key_index_none_no_key(self.global_callbacks@, event, n as int);
        }
        self.global_callbacks.push((event, cb));
        proof {
            assert(self.model() =~~= (CursiveModel {
                callbacks: spec_cb_insert(old(self).model().callbacks, event, cb),
                ..old(self).model()
            }));
        }
    }

    /// Adds a layer on top of the active screen; it immediately becomes the
    /// event target.
    pub fn add_layer(&mut self, layer: Layer)
        requires
            old(self).wf(),
        ensures
            final(self).wf(),
            final(self).model() == (CursiveModel {
                screens: old(self).model().screens.update(
                    old(self).model().active_screen,
                    old(self).model().active_layers().push(layer.model()),
                ),
                ..old(self).model()
            }),
    {
        let ghost lm = layer.model();
        vec_mut(&mut self.screens, self.active_screen).add_layer(layer);
        proof {
            assert(self.model() =~~= (CursiveModel {
                screens: old(self).model().screens.update(
                    old(self).model().active_screen,
                    old(self).model().active_layers().push(lm),
                ),
                ..old(self).model()
            }));
        }
    }

    /// Removes the top layer of the active screen; an empty screen is left
    /// unchanged.
    pub fn pop_layer(&mut self)
        requires
            old(self).wf(),
        ensures
            final(self).wf(),
            final(self).model() == (CursiveModel {
                screens: old(self).model().screens.update(
                    old(self).model().active_screen,
                    spec_pop(old(self).model().active_layers()),
                ),
                ..old(self).model()
            }),
    {
        let _popped = vec_mut(&mut self.screens, self.active_screen).pop_layer();
        proof {
            assert(self.model() =~~= (CursiveModel {
                screens: old(self).model().screens.update(
                    old(self).model().active_screen,
                    spec_pop(old(self).model().active_layers()),
                ),
                ..old(self).model()
            }));
        }
    }

    /// Runs one deferred callback with exclusive access to the context.
    pub fn run_callback(&mut self, cb: Callback)
        requires
            old(self).wf(),
        ensures
            final(self).wf(),
            final(self).model() == spec_run_cb(old(self).model(), cb),
    {
        match cb {
            Callback::Quit => {
                self.running = false;
            },
            Callback::PopLayer => {
                self.pop_layer();
            },
            Callback::SetScreen(i) => {
                if i < self.screens.len() {
                    self.active_screen = i;
                }
            },
            Callback::SelectMenubar => {
                self.menubar.take_focus();
            },
            Callback::SetAutohideMenu(b) => {
                self.menubar.set_autohide(b);
            },
            Callback::Noop => {},
        }
        proof {
            assert(self.model() =~~= spec_run_cb(old(self).model(), cb));
        }
    }

    /// Handles an event that the focused view path ignored: the callback
    /// bound to it in the global table runs; a missing binding is silently
    /// ignored.
    pub fn on_event(&mut self, event: Event)
        requires
            old(self).wf(),
        ensures
            final(self).wf(),
            final(self).model() == spec_global_event(old(self).model(), event),
    {
        let cb = self.lookup_callback(event);
        match cb {
            None => {},
            Some(cb) => {
                self.run_callback(cb);
            },
        }
    }

    /// Reads the callback the global table yields for an event.
    pub fn lookup_callback(&self, event: Event) -> (r: Option<Callback>)
        ensures
            r == spec_lookup(self.model().callbacks, event),
    {
        let n = self.global_callbacks.len();
        let mut i: usize = n;
        while i > 0
            invariant
                n == self.global_callbacks@.len(),
                i <= n,
                spec_key_index(self.global_callbacks@, event) == spec_key_index_from(
                    self.global_callbacks@,
                    event,
                    i as int,
                ),
            decreases i,
        {
            if self.global_callbacks[i - 1].0 == event {
                assert(spec_key_index(self.global_callbacks@, event) == Some(i - 1));
                return Some(self.global_callbacks[i - 1].1);
            }
            i = i - 1;
        }
        None
    }

    /// Dispatches one event: a focused menu bar is offered it first and
    /// suppresses all fallthrough; otherwise the active screen's top layer
    /// is offered it, and only when that layer ignores it does the global
    /// table get its turn.  A consumed result carrying a callback runs it
    /// to completion before this returns.
    pub fn dispatch_event(&mut self, event: Event)
        requires
            old(self).wf(),
        ensures
            final(self).wf(),
            final(self).model() == spec_dispatch(old(self).model(), event),
    {
        if self.menubar.receive_events() {
            let r = self.menubar.on_event(event);
            proof {
                assert(self.model().wf());
            }
            match r {
                EventResult::Consumed(Some(cb)) => {
                    self.run_callback(cb);
                },
                _ => {},
            }
            proof {
                assert(self.model() =~~= spec_dispatch(old(self).model(), event));
            }
        } else {
            let r = self.screens[self.active_screen].on_event(event);
            match r {
                EventResult::Ignored => {
                    self.on_event(event);
                },
                EventResult::Consumed(Some(cb)) => {
                    self.run_callback(cb);
                },
                EventResult::Consumed(None) => {},
            }
            proof {
                assert(self.model() =~~= spec_dispatch(old(self).model(), event));
            }
        }
    }

    /// The screen size, in cells: the size the last layout pass ran
    /// against, as the event loop's driver read it from the backend.
    pub fn screen_size(&self) -> (s: Vec2)
        ensures
            s == self.model().screen_size,
    {
        self.last_size
    }

    /// Recomputes the active screen's layout against the given size; every
    /// layer is laid out against the full size.
    pub fn layout(&mut self, size: Vec2)
        requires
            old(self).wf(),
        ensures
            final(self).wf(),
            final(self).model() == spec_cursive_layout(old(self).model(), size),
    {
        self.last_size = size;
        vec_mut(&mut self.screens, self.active_screen).layout(size);
        proof {
            assert(self.model() =~~= spec_cursive_layout(old(self).model(), size));
        }
    }

    /// Draws the menu bar (when visible) and the active screen into the
    /// frame: the bar's sub-printer receives events exactly when the bar is
    /// focused, and the screen starts one row down exactly when the bar
    /// reserves its row.
    pub fn draw(&self, frame: &mut Frame)
        requires
            self.wf(),
            old(frame).wf(),
        ensures
            final(frame).wf(),
            final(frame).size == old(frame).size,
            final(frame).grid() == spec_cursive_draw(
                self.model(),
                old(frame).grid(),
                old(frame).size,
            ),
    {
        let size = frame.size;
        let p = Printer::new(size, self.theme);
        if self.menubar.visible() {
            let sub = p.sub_printer(Vec2::zero(), size, self.menubar.receive_events());
            self.menubar.draw(&sub, frame);
        }
        let off: usize = if self.menubar.autohide() {
            0
        } else {
            1
        };
        let selected = self.menubar.receive_events();
        let p2 = p.sub_printer(Vec2::new(0, off), size, !selected);
        self.screens[self.active_screen].draw(&p2, frame);
    }

    /// Whether the next dispatch of this event must be preceded by a full
    /// backend clear: only the resize signal needs one, since the terminal
    /// may hold stale content afterwards.
    pub fn needs_clear(event: &Event) -> (r: bool)
        ensures
            r == (*event == Event::WindowResize),
    {
        *event == Event::WindowResize
    }

    /// Whether the event loop keeps going.
    pub fn is_running(&self) -> (r: bool)
        ensures
            r == self.model().running,
    {
        self.running
    }

    /// Stops the event loop: the flag is checked at the iteration boundary,
    /// so the cycle that invoked the quitting callback still finishes.
    pub fn quit(&mut self)
        requires
            old(self).wf(),
        ensures
            final(self).wf(),
            final(self).model() == (CursiveModel { running: false, ..old(self).model() }),
    {
        self.running = false;
        proof {
            assert(self.model() =~~= (CursiveModel { running: false, ..old(self).model() }));
        }
    }
}

/// Among entries with pairwise distinct keys read the same way, the latest
/// index for a key is the same.
proof fn lemma_key_index_keys_equal(
    a: Seq<(Event, Callback)>,
    b: Seq<(Event, Callback)>,
    e: Event,
    n: int,
)
    requires
        n <= a.len(),
        n <= b.len(),
        forall|j: int| 0 <= j < n ==> (#[trigger] a[j]).0 == (#[trigger] b[j]).0,
    ensures
        spec_key_index_from(a, e, n) == spec_key_index_from(b, e, n),
    decreases n,
{
    if n > 0 {
        lemma_key_index_keys_equal(a, b, e, n - 1);
    }
}

/// When the search finds nothing, no entry carries the key.
proof fn lemma_key_index_none_no_key(cbs: Seq<(Event, Callback)>, e: Event, n: int)
    requires
        n <= cbs.len(),
        spec_key_index_from(cbs, e, n) is None,
    ensures
        forall|j: int| 0 <= j < n ==> (#[trigger] cbs[j]).0 != e,
    decreases n,
{
    if n > 0 {
        lemma_key_index_none_no_key(cbs, e, n - 1);
    }
}

/// What the latest-index search guarantees: the entry it names carries the
/// key, and no later entry does.
proof fn lemma_key_index_props(cbs: Seq<(Event, Callback)>, e: Event, n: int)
    requires
        n <= cbs.len(),
    ensures
        (match spec_key_index_from(cbs, e, n) {
            Some(i) => 0 <= i < n && cbs[i].0 == e && (forall|j: int|
                i < j < n ==> (#[trigger] cbs[j]).0 != e),
            None => forall|j: int| 0 <= j < n ==> (#[trigger] cbs[j]).0 != e,
        }),
    decreases n,
{
    if n > 0 {
        lemma_key_index_props(cbs, e, n - 1);
    }
}

/// A search over entries that agree below `n` except at `i`, where both
/// carry the key `e`, finds the same index.
proof fn lemma_key_index_update(
    cbs: Seq<(Event, Callback)>,
    e: Event,
    cb: Callback,
    i: int,
    n: int,
)
    requires
        0 <= i < cbs.len(),
        n <= cbs.len(),
        cbs[i].0 == e,
    ensures
        spec_key_index_from(cbs.update(i, (e, cb)), e, n) == spec_key_index_from(cbs, e, n),
    decreases n,
{
    if n > 0 {
        lemma_key_index_update(cbs, e, cb, i, n - 1);
    }
}

/// Registering a callback binds its key to it and leaves every other key's
/// binding unchanged.
pub proof fn lemma_insert_lookup(cbs: Seq<(Event, Callback)>, e: Event, cb: Callback)
    ensures
        spec_lookup(spec_cb_insert(cbs, e, cb), e) == Some(cb),
        forall|e2: Event|
            e2 != e ==> #[trigger] spec_lookup(spec_cb_insert(cbs, e, cb), e2) == spec_lookup(
                cbs,
                e2,
            ),
{
    let n = cbs.len() as int;
    lemma_key_index_props(cbs, e, n);
    match spec_key_index(cbs, e) {
        Some(i) => {
            let upd = cbs.update(i, (e, cb));
            lemma_key_index_update(cbs, e, cb, i, n);
            assert(spec_key_index(upd, e) == Some(i));
            assert(upd[i].1 == cb);
            assert forall|e2: Event| e2 != e implies #[trigger] spec_lookup(
                spec_cb_insert(cbs, e, cb),
                e2,
            ) == spec_lookup(cbs, e2) by {
                lemma_key_index_keys_equal(upd, cbs, e2, n);
                match spec_key_index(cbs, e2) {
                    Some(k) => {
                        lemma_key_index_props(cbs, e2, n);
                        assert(cbs[k].0 == e2);
                        assert(k != i);
                        assert(upd[k].1 == cbs[k].1);
                    },
                    None => {},
                }
            }
        },
        None => {
            let pushed = cbs.push((e, cb));
            assert(pushed[n].0 == e);
            assert(spec_key_index_from(pushed, e, n + 1) == Some(n));
            assert forall|e2: Event| e2 != e implies #[trigger] spec_lookup(
                spec_cb_insert(cbs, e, cb),
                e2,
            ) == spec_lookup(cbs, e2) by {
                assert(pushed[n].0 != e2);
                assert(spec_key_index_from(pushed, e2, n + 1) == spec_key_index_from(
                    pushed,
                    e2,
                    n,
                ));
                lemma_key_index_keys_equal(pushed, cbs, e2, n);
                match spec_key_index(cbs, e2) {
                    Some(k) => {
                        lemma_key_index_props(cbs, e2, n);
                        assert(pushed[k].1 == cbs[k].1);
                    },
                    None => {},
                }
            }
        },
    }
}

/// Registering two callbacks for one key leaves only the second in effect.
pub proof fn lemma_duplicate_binding(
    cbs: Seq<(Event, Callback)>,
    e: Event,
    first: Callback,
    second: Callback,
)
    ensures
        spec_lookup(spec_cb_insert(spec_cb_insert(cbs, e, first), e, second), e) == Some(second),
{
    lemma_insert_lookup(spec_cb_insert(cbs, e, first), e, second);
}

/// With the menu bar focused, dispatch is decided by the bar alone: the
/// global binding table can be replaced by anything without changing what
/// happens, so a bound event consumable by the bar never reaches the table.
pub proof fn lemma_overlay_priority(
    m: CursiveModel,
    other_table: Seq<(Event, Callback)>,
    e: Event,
)
    requires
        m.menubar.focused,
    ensures
        spec_dispatch(CursiveModel { callbacks: other_table, ..m }, e) == (CursiveModel {
            callbacks: other_table,
            ..spec_dispatch(m, e)
        }),
{
    let m2 = CursiveModel { callbacks: other_table, ..m };
    let step = spec_menubar_on_event(m.menubar, e);
    match step.1 {
        EventResult::Consumed(Some(cb)) => {
            assert(spec_run_cb(CursiveModel { menubar: step.0, ..m2 }, cb) =~~= (CursiveModel {
                callbacks: other_table,
                ..spec_run_cb(CursiveModel { menubar: step.0, ..m }, cb)
            }));
        },
        _ => {},
    }
}

/// With the menu bar inactive and the active screen's top layer ignoring
/// the event, the callback bound in the global table runs — once, by
/// itself.
pub proof fn lemma_global_fallback(m: CursiveModel, e: Event, cb: Callback)
    requires
        !m.menubar.focused,
        spec_stack_on_event(m.active_layers(), e) == EventResult::Ignored,
        spec_lookup(m.callbacks, e) == Some(cb),
    ensures
        spec_dispatch(m, e) == spec_run_cb(m, cb),
{
}

/// With `autohide` off the menu bar reserves exactly the top row: the
/// active screen is drawn one row down; with it on, screen content starts
/// at the top of the frame.
pub proof fn lemma_autohide_row_reservation(m: CursiveModel, fsize: Vec2)
    requires
        fsize.y >= 1,
    ensures
        spec_screen_printer(m, fsize).offset.y == (if m.menubar.autohide {
            0int
        } else {
            1int
        }),
{
}

} // verus!
