use cursive::{
    Button, Callback, Cursive, Event, Frame, Key, Layer, Menubar, ScreenError, Selector,
    TextView, Vec2, Widget, WidgetKind,
};

fn text_widget(s: &str) -> Widget {
    Widget::Text(TextView { content: s.to_string(), size: Vec2::new(0, 0) })
}

fn button_widget(label: &str, action: Callback) -> Widget {
    Widget::Button(Button { label: label.to_string(), action, size: Vec2::new(0, 0) })
}

fn row_string(frame: &Frame, y: usize, width: usize) -> String {
    let mut out = String::new();
    for x in 0..width {
        out.push_str(frame.cell(x, y).as_str());
    }
    out
}

// The active index stays in bounds: an out-of-range id is reported and
// mutates nothing.
#[test]
fn active_screen_stays_in_bounds() {
    let mut siv = Cursive::new();
    assert_eq!(siv.active_screen(), 0);
    let one = siv.add_screen();
    assert_eq!(one, 1);
    assert_eq!(siv.active_screen(), 0);
    assert_eq!(siv.set_screen(1), Ok(()));
    assert_eq!(siv.active_screen(), 1);
    assert_eq!(siv.set_screen(7), Err(ScreenError::OutOfRange));
    assert_eq!(siv.active_screen(), 1);
    let two = siv.add_active_screen();
    assert_eq!(two, 2);
    assert_eq!(siv.active_screen(), 2);
}

// Layers are drawn bottom to top: the last-pushed layer occludes the ones
// below, and popping uncovers the previous one.
#[test]
fn layer_occlusion_order() {
    let mut siv = Cursive::new();
    siv.set_autohide_menu(true); // draw screen content at row 0
    siv.add_layer(Layer::new(text_widget("aaaa")));
    siv.add_layer(Layer::new(text_widget("bb")));
    siv.add_layer(Layer::new(text_widget("c")));
    siv.layout(Vec2::new(8, 2));
    let mut frame = Frame::new(Vec2::new(8, 2));
    siv.draw(&mut frame);
    assert_eq!(row_string(&frame, 0, 8), "cbaa    ");
    siv.pop_layer();
    let mut frame = Frame::new(Vec2::new(8, 2));
    siv.draw(&mut frame);
    assert_eq!(row_string(&frame, 0, 8), "bbaa    ");
    siv.pop_layer();
    let mut frame = Frame::new(Vec2::new(8, 2));
    siv.draw(&mut frame);
    assert_eq!(row_string(&frame, 0, 8), "aaaa    ");
}

// With the menu bar focused, an event bound in the global table and
// consumable by the bar is consumed by the bar and never reaches the table.
#[test]
fn menubar_takes_priority_over_global_table() {
    let mut siv = Cursive::new();
    siv.menubar().add_leaf("file", Callback::Noop);
    // Esc is consumable by the focused bar; bind it globally too.
    siv.add_global_callback(Event::Key(Key::Esc), Callback::PopLayer);
    siv.add_layer(Layer::new(text_widget("base")));
    siv.select_menubar();
    assert_eq!(siv.screen().len(), 1);
    siv.dispatch_event(Event::Key(Key::Esc));
    // The bar consumed the dismissal: the global PopLayer did not fire.
    assert_eq!(siv.screen().len(), 1);
}

// With the bar inactive and the top layer ignoring the event, the bound
// global callback fires exactly once.
#[test]
fn global_callback_fires_once_on_ignored_event() {
    let mut siv = Cursive::new();
    siv.add_layer(Layer::new(text_widget("one")));
    siv.add_layer(Layer::new(text_widget("two")));
    siv.add_global_callback(Event::Char('p'), Callback::PopLayer);
    assert_eq!(siv.screen().len(), 2);
    siv.dispatch_event(Event::Char('p'));
    assert_eq!(siv.screen().len(), 1);
    // An unbound event is silently ignored.
    siv.dispatch_event(Event::Char('z'));
    assert_eq!(siv.screen().len(), 1);
}

// A consumed event never falls through to the global table.
#[test]
fn consumed_event_suppresses_global_table() {
    let mut siv = Cursive::new();
    siv.add_layer(Layer::new(text_widget("base")));
    // The button consumes Enter, leaving Noop; the global Enter binding
    // must not fire.
    siv.add_layer(Layer::new(button_widget("ok", Callback::Noop)));
    siv.add_global_callback(Event::Key(Key::Enter), Callback::PopLayer);
    siv.dispatch_event(Event::Key(Key::Enter));
    assert_eq!(siv.screen().len(), 2);
}

// A button's action runs against the context when the button is activated.
#[test]
fn button_action_runs_as_callback() {
    let mut siv = Cursive::new();
    siv.add_layer(Layer::new(text_widget("under")));
    siv.add_layer(Layer::new(button_widget("close", Callback::PopLayer)));
    assert_eq!(siv.screen().len(), 2);
    siv.dispatch_event(Event::Key(Key::Enter));
    assert_eq!(siv.screen().len(), 1);
}

// Lookup is type-safe: a name bound to a text view yields nothing when
// queried as a button, and a usable reference when queried as a text view;
// the mutation shows up on the next draw.
#[test]
fn find_checks_the_runtime_kind() {
    let mut siv = Cursive::new();
    siv.set_autohide_menu(true);
    siv.add_layer(Layer::named("msg", text_widget("old")));
    assert!(siv.find_id("msg", WidgetKind::Button).is_none());
    assert!(siv.find_id("nope", WidgetKind::Text).is_none());
    {
        let w = siv.find_id("msg", WidgetKind::Text).expect("named text view");
        match w {
            Widget::Text(t) => t.content = "new".to_string(),
            _ => panic!("wrong kind handed out"),
        }
    }
    siv.layout(Vec2::new(6, 1));
    let mut frame = Frame::new(Vec2::new(6, 1));
    siv.draw(&mut frame);
    assert_eq!(row_string(&frame, 0, 6), "new   ");
}

// `find` with a selector behaves like `find_id`, and the topmost match wins.
#[test]
fn find_prefers_the_topmost_match() {
    let mut siv = Cursive::new();
    siv.add_layer(Layer::named("dup", text_widget("below")));
    siv.add_layer(Layer::named("dup", button_widget("above", Callback::Noop)));
    assert!(siv.find(&Selector::Id("dup"), WidgetKind::Text).is_none());
    assert!(siv.find(&Selector::Id("dup"), WidgetKind::Button).is_some());
}

// With autohide off the bar reserves the top row and content starts one row
// down; with autohide on and the bar inactive, content starts at row zero.
#[test]
fn autohide_controls_the_reserved_row() {
    let mut siv = Cursive::new();
    siv.add_layer(Layer::new(text_widget("hi")));
    siv.layout(Vec2::new(4, 3));
    let mut frame = Frame::new(Vec2::new(4, 3));
    siv.draw(&mut frame);
    assert_eq!(row_string(&frame, 0, 4), "    ");
    assert_eq!(row_string(&frame, 1, 4), "hi  ");
    siv.set_autohide_menu(true);
    let mut frame = Frame::new(Vec2::new(4, 3));
    siv.draw(&mut frame);
    assert_eq!(row_string(&frame, 0, 4), "hi  ");
    assert_eq!(row_string(&frame, 1, 4), "    ");
}

// The visible menu bar paints its entries on the top row.
#[test]
fn menubar_draws_its_entries() {
    let mut siv = Cursive::new();
    siv.menubar().add_leaf("one", Callback::Noop);
    siv.menubar().add_leaf("two", Callback::Noop);
    siv.add_layer(Layer::new(text_widget("body")));
    siv.layout(Vec2::new(12, 2));
    let mut frame = Frame::new(Vec2::new(12, 2));
    siv.draw(&mut frame);
    assert_eq!(row_string(&frame, 0, 12), "one  two    ");
    assert_eq!(row_string(&frame, 1, 12), "body        ");
}

// Only the resize signal asks for a backend clear, and the next layout pass
// uses the new size.
#[test]
fn resize_forces_clear_and_new_size() {
    assert!(Cursive::needs_clear(&Event::WindowResize));
    assert!(!Cursive::needs_clear(&Event::Char('r')));
    assert!(!Cursive::needs_clear(&Event::Refresh));
    let mut siv = Cursive::new();
    siv.layout(Vec2::new(10, 5));
    assert_eq!(siv.screen_size(), Vec2::new(10, 5));
    siv.dispatch_event(Event::WindowResize);
    siv.layout(Vec2::new(7, 3));
    assert_eq!(siv.screen_size(), Vec2::new(7, 3));
}

// Quit from within a dispatched callback: the dispatch finishes, and the
// loop flag is down afterwards, so a driver polls no further.
#[test]
fn quit_takes_effect_at_the_iteration_boundary() {
    let mut siv = Cursive::new();
    assert!(siv.is_running());
    siv.add_global_callback(Event::Char('q'), Callback::Quit);
    siv.dispatch_event(Event::Char('q'));
    assert!(!siv.is_running());
    // Direct quit does the same.
    let mut other = Cursive::new();
    other.quit();
    assert!(!other.is_running());
}

// Registering two callbacks for one key leaves only the second in effect.
#[test]
fn duplicate_binding_keeps_the_second() {
    let mut siv = Cursive::new();
    siv.add_layer(Layer::new(text_widget("a")));
    siv.add_layer(Layer::new(text_widget("b")));
    siv.add_global_callback(Event::Char('x'), Callback::Quit);
    siv.add_global_callback(Event::Char('x'), Callback::PopLayer);
    siv.dispatch_event(Event::Char('x'));
    assert!(siv.is_running());
    assert_eq!(siv.screen().len(), 1);
}

// The menu bar consumes its navigation keys while focused and lets an
// activated leaf run its action after dismissing itself.
#[test]
fn menubar_navigation_and_activation() {
    let mut siv = Cursive::new();
    siv.add_layer(Layer::new(text_widget("under")));
    siv.menubar().add_leaf("keep", Callback::Noop);
    siv.menubar().add_leaf("close", Callback::PopLayer);
    siv.select_menubar();
    assert!(siv.menubar().receive_events());
    siv.dispatch_event(Event::Key(Key::Right));
    assert_eq!(siv.menubar().selected(), 1);
    siv.dispatch_event(Event::Key(Key::Enter));
    assert!(!siv.menubar().receive_events());
    assert_eq!(siv.screen().len(), 0);
}

// Escape dismisses the focused bar without running anything.
#[test]
fn menubar_escape_dismisses() {
    let mut siv = Cursive::new();
    siv.add_layer(Layer::new(text_widget("under")));
    siv.select_menubar();
    siv.dispatch_event(Event::Key(Key::Esc));
    assert!(!siv.menubar().receive_events());
    assert_eq!(siv.screen().len(), 1);
}

// A fresh menu bar is empty, visible and unfocused.
#[test]
fn menubar_defaults() {
    let mut bar = Menubar::new();
    assert!(bar.visible());
    assert!(!bar.receive_events());
    assert_eq!(bar.len(), 0);
    assert_eq!(bar.selected(), 0);
    bar.take_focus();
    assert!(bar.receive_events());
    bar.set_autohide(true);
    assert!(bar.visible());
}

// The stored refresh rate round-trips.
#[test]
fn fps_round_trips() {
    let mut siv = Cursive::new();
    assert_eq!(siv.fps(), 0);
    siv.set_fps(30);
    assert_eq!(siv.fps(), 30);
}
