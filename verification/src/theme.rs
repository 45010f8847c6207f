//! The theme value carried into every draw pass, and the loader that builds
//! one from TOML text.
//!
//! The core never interprets the theme while drawing; it only stores it,
//! clones it into the draw surface, and replaces it wholesale when a reload
//! succeeds.

use vstd::prelude::*;

verus! {

/// How view borders are drawn.
#[derive(Clone, Copy, Debug, PartialEq, Eq, Structural)]
pub enum BorderStyle {
    /// Plain single-line borders.
    Simple,
    /// Borders with a raised effect.
    Outset,
    /// No borders at all.
    NoBorder,
}

/// An immutable description of colors and styles.
///
/// Loaded once at context creation and only ever replaced wholesale.
#[derive(Clone, Copy, Debug, PartialEq, Eq, Structural)]
pub struct Theme {
    /// Whether layers cast a shadow.
    pub shadow: bool,
    /// How borders are drawn.
    pub borders: BorderStyle,
}

/// The error reported when theme text cannot be understood.
#[derive(Clone, Copy, Debug, PartialEq, Eq, Structural)]
pub enum ThemeError {
    /// The text is not a well-formed TOML document.
    Parse,
}

/// A scalar read from one top-level entry of a TOML document.
#[derive(Clone, Debug, PartialEq, Eq)]
pub enum ConfigValue {
    /// A boolean entry.
    Bool(bool),
    /// An integer entry.
    Int(i64),
    /// A string entry.
    Text(String),
    /// An entry of a kind the theme format does not use.
    Unsupported,
}

/// The top-level entries that the TOML parser reads out of the given text,
/// in the order the parser hands them out, or nothing if the text is not a
/// well-formed document.  The parse depends on the text alone.
pub uninterp spec fn toml_entries(text: Seq<char>) -> Option<Seq<(String, ConfigValue)>>;

/// Relies on the `toml` crate: `str::parse::<toml::Table>` parses the text
/// as a TOML document, and iterating the table hands its top-level entries
/// out; both depend on the text alone.
#[verifier::external_body]
fn parse_config(content: &str) -> (r: Option<Vec<(String, ConfigValue)>>)
    ensures
        (match r {
            Some(v) => toml_entries(content@) == Some(v@),
            None => toml_entries(content@) is None,
        }),
{
    let table: toml::Table = match content.parse() {
        Ok(t) => t,
        Err(_) => return None,
    };
    Some(table.into_iter().map(|(k, v)| (k, match v {
        toml::Value::String(s) => ConfigValue::Text(s),
        toml::Value::Integer(i) => ConfigValue::Int(i),
        toml::Value::Float(_) => ConfigValue::Unsupported,
        toml::Value::Boolean(b) => ConfigValue::Bool(b),
        toml::Value::Datetime(_) => ConfigValue::Unsupported,
        toml::Value::Array(_) => ConfigValue::Unsupported,
        toml::Value::Table(_) => ConfigValue::Unsupported,
    })).collect())
}

impl Theme {
    /// The built-in theme used until a reload replaces it.
    pub open spec fn spec_default() -> Theme {
        Theme { shadow: true, borders: BorderStyle::Simple }
    }
}

impl Default for Theme {
    /// The built-in theme: shadows on, simple borders.
    fn default() -> (r: Theme)
        ensures
            r == Theme::spec_default(),
    {
        Theme { shadow: true, borders: BorderStyle::Simple }
    }
}

/// The border style a configuration name denotes; an unknown name leaves the
/// current style in place.
pub open spec fn spec_border_from_name(name: Seq<char>, current: BorderStyle) -> BorderStyle {
    if name == "simple"@ {
        BorderStyle::Simple
    } else if name == "outset"@ {
        BorderStyle::Outset
    } else if name == "none"@ {
        BorderStyle::NoBorder
    } else {
        current
    }
}

/// The theme after one configuration entry is applied; entries the format
/// does not know are ignored.
pub open spec fn spec_apply_entry(t: Theme, key: Seq<char>, value: ConfigValue) -> Theme {
    if key == "shadow"@ {
        match value {
            ConfigValue::Bool(b) => Theme { shadow: b, ..t },
            _ => t,
        }
    } else if key == "borders"@ {
        match value {
            ConfigValue::Text(s) => (Theme { borders: spec_border_from_name(s@, t.borders), ..t }),
            _ => t,
        }
    } else {
        t
    }
}

/// The theme after the first `n` entries are applied to the default theme.
pub open spec fn spec_theme_prefix(entries: Seq<(String, ConfigValue)>, n: int) -> Theme
    decreases n,
{
    if n <= 0 {
        Theme::spec_default()
    } else {
        spec_apply_entry(
            spec_theme_prefix(entries, n - 1),
            entries[n - 1].0@,
            entries[n - 1].1,
        )
    }
}

/// The theme denoted by a full entry list.
pub open spec fn spec_theme_of_entries(entries: Seq<(String, ConfigValue)>) -> Theme {
    spec_theme_prefix(entries, entries.len() as int)
}

/// The theme the given text denotes, if it parses.
pub open spec fn spec_theme_of_text(text: Seq<char>) -> Option<Theme> {
    match toml_entries(text) {
        Some(entries) => Some(spec_theme_of_entries(entries)),
        None => None,
    }
}

fn apply_entry(t: Theme, key: &String, value: &ConfigValue) -> (r: Theme)
    ensures
        r == spec_apply_entry(t, key@, *value),
{
    let k_shadow: String = "shadow".to_owned();
    let k_borders: String = "borders".to_owned();
    if *key == k_shadow {
        match value {
            ConfigValue::Bool(b) => Theme { shadow: *b, ..t },
            _ => t,
        }
    } else if *key == k_borders {
        match value {
            ConfigValue::Text(s) => Theme { borders: border_from_name(s, t.borders), ..t },
            _ => t,
        }
    } else {
        t
    }
}

fn border_from_name(name: &String, current: BorderStyle) -> (r: BorderStyle)
    ensures
        r == spec_border_from_name(name@, current),
{
    let n_simple: String = "simple".to_owned();
    let n_outset: String = "outset".to_owned();
    let n_none: String = "none".to_owned();
    if *name == n_simple {
        BorderStyle::Simple
    } else if *name == n_outset {
        BorderStyle::Outset
    } else if *name == n_none {
        BorderStyle::NoBorder
    } else {
        current
    }
}

/// Builds the theme denoted by a parsed entry list, starting from the
/// default theme and applying the entries in order.
pub fn theme_of_entries(entries: &Vec<(String, ConfigValue)>) -> (r: Theme)
    ensures
        r == spec_theme_of_entries(entries@),
{
    let mut t = Theme { shadow: true, borders: BorderStyle::Simple };
    let n = entries.len();
    let mut i: usize = 0;
    while i < n
        invariant
            n == entries@.len(),
            i <= n,
            t == spec_theme_prefix(entries@, i as int),
        decreases n - i,
    {
        t = apply_entry(t, &entries[i].0, &entries[i].1);
        i = i + 1;
    }
    t
}

/// Loads a theme from TOML text: the parsed entries are applied in order to
/// the default theme; text that does not parse is reported as an error.
pub fn load_theme(content: &str) -> (r: Result<Theme, ThemeError>)
    ensures
        (match spec_theme_of_text(content@) {
            Some(t) => r == Ok::<Theme, ThemeError>(t),
            None => r == Err::<Theme, ThemeError>(ThemeError::Parse),
        }),
{
    match parse_config(content) {
        Some(entries) => Ok(theme_of_entries(&entries)),
        None => Err(ThemeError::Parse),
    }
}

/// The built-in default theme.
pub fn load_default() -> (r: Theme)
    ensures
        r == Theme::spec_default(),
{
    Theme { shadow: true, borders: BorderStyle::Simple }
}

} // verus!
