use cursive::backend::keycode_event;
use cursive::theme::{load_default, load_theme, BorderStyle, Theme, ThemeError};
use cursive::{Cursive, Event, Frame, Key, Layer, TextView, Vec2, Widget};

fn text_layer(s: &str) -> Layer {
    Layer::new(Widget::Text(TextView { content: s.to_string(), size: Vec2::new(0, 0) }))
}

// The built-in default: shadows on, simple borders.
#[test]
fn default_theme_values() {
    let t = load_default();
    assert!(t.shadow);
    assert_eq!(t.borders, BorderStyle::Simple);
    assert_eq!(Theme::default(), t);
}

// Well-formed TOML text replaces the theme wholesale.
#[test]
fn load_theme_reads_known_entries() {
    let t = load_theme("shadow = false\nborders = \"outset\"\n").expect("parses");
    assert!(!t.shadow);
    assert_eq!(t.borders, BorderStyle::Outset);
    let t = load_theme("borders = \"none\"").expect("parses");
    assert!(t.shadow);
    assert_eq!(t.borders, BorderStyle::NoBorder);
}

// Unknown keys and values of the wrong kind are ignored.
#[test]
fn load_theme_ignores_unknown_entries() {
    let t = load_theme("colour = \"mauve\"\nshadow = 3\nborders = \"odd\"").expect("parses");
    assert_eq!(t, load_default());
}

// Text that is not TOML is reported, and a context keeps its theme.
#[test]
fn bad_theme_text_leaves_the_context_unchanged() {
    assert_eq!(load_theme("= not toml ="), Err(ThemeError::Parse));
    let mut siv = Cursive::new();
    let before = *siv.current_theme();
    assert_eq!(siv.load_theme("shadow = ["), Err(ThemeError::Parse));
    assert_eq!(*siv.current_theme(), before);
    assert_eq!(siv.load_theme("shadow = false"), Ok(()));
    assert!(!siv.current_theme().shadow);
}

// One grapheme cluster occupies one cell: a combining accent stays with its
// base character instead of spilling into the next cell.
#[test]
fn grapheme_clusters_share_a_cell() {
    let mut siv = Cursive::new();
    siv.set_autohide_menu(true);
    siv.add_layer(text_layer("e\u{301}x"));
    siv.layout(Vec2::new(4, 1));
    let mut frame = Frame::new(Vec2::new(4, 1));
    siv.draw(&mut frame);
    assert_eq!(frame.cell(0, 0).as_str(), "e\u{301}");
    assert_eq!(frame.cell(1, 0).as_str(), "x");
    assert_eq!(frame.cell(2, 0).as_str(), " ");
}

// Zero-width characters take no cell of their own.
#[test]
fn zero_width_graphemes_are_skipped() {
    let mut siv = Cursive::new();
    siv.set_autohide_menu(true);
    siv.add_layer(text_layer("a\u{200B}b"));
    siv.layout(Vec2::new(4, 1));
    let mut frame = Frame::new(Vec2::new(4, 1));
    siv.draw(&mut frame);
    assert_eq!(frame.cell(0, 0).as_str(), "a");
    assert_eq!(frame.cell(1, 0).as_str(), "b");
}

// Drawing clips to the frame: a long text stops at the right edge.
#[test]
fn printing_clips_to_the_frame() {
    let mut siv = Cursive::new();
    siv.set_autohide_menu(true);
    siv.add_layer(text_layer("abcdefgh"));
    siv.layout(Vec2::new(3, 1));
    let mut frame = Frame::new(Vec2::new(3, 1));
    siv.draw(&mut frame);
    assert_eq!(frame.cell(0, 0).as_str(), "a");
    assert_eq!(frame.cell(1, 0).as_str(), "b");
    assert_eq!(frame.cell(2, 0).as_str(), "c");
}

// A fresh frame is all spaces.
#[test]
fn new_frame_is_blank() {
    let frame = Frame::new(Vec2::new(2, 2));
    for y in 0..2 {
        for x in 0..2 {
            assert_eq!(frame.cell(x, y).as_str(), " ");
        }
    }
}

// Key codes decode to the events the dispatch loop expects.
#[test]
fn keycodes_decode_to_events() {
    assert_eq!(keycode_event(410), Event::WindowResize);
    assert_eq!(keycode_event(10), Event::Key(Key::Enter));
    assert_eq!(keycode_event(27), Event::Key(Key::Esc));
    assert_eq!(keycode_event(260), Event::Key(Key::Left));
    assert_eq!(keycode_event(261), Event::Key(Key::Right));
    assert_eq!(keycode_event(113), Event::Char('q'));
    assert_eq!(keycode_event(-1), Event::Refresh);
    assert_eq!(keycode_event(500), Event::Refresh);
}
