//! The settings record, its defaults, partial updates, its text file, and
//! loading it with a fallback to defaults.
use vstd::prelude::*;

use crate::text::{decimal, push_decimal, push_toml_escaped, text_equals, toml_escaped};
use crate::toml_table::{
    parse_toml_table, table_get, toml_document, TomlScalar, TomlScalarView,
};

verus! {

/// The platform whose default shortcut applies.
#[derive(Debug, Clone, Copy, PartialEq, Eq, Structural)]
pub enum Platform {
    /// Apple's desktop platform.
    MacOs,
    /// Any other desktop platform.
    Other,
}

/// The default result count.
pub const DEFAULT_MAX_RESULTS: u32 = 20;

/// The default window width, in pixels.
pub const DEFAULT_WINDOW_WIDTH: u32 = 700;

/// Application settings.
#[derive(Debug, Clone)]
pub struct Config {
    /// Global shortcut that toggles the window, such as `Control+Shift+Space`.
    pub shortcut: String,
    /// `"dark"` or `"light"`.
    pub theme: String,
    /// Maximum number of results to display.
    pub max_results: u32,
    /// Window width in pixels.
    pub window_width: u32,
}

pub struct ConfigView {
    pub shortcut: Seq<char>,
    pub theme: Seq<char>,
    pub max_results: u32,
    pub window_width: u32,
}

impl View for Config {
    type V = ConfigView;

    open spec fn view(&self) -> ConfigView {
        ConfigView {
            shortcut: self.shortcut@,
            theme: self.theme@,
            max_results: self.max_results,
            window_width: self.window_width,
        }
    }
}

/// The default shortcut of a platform.
pub open spec fn default_shortcut_text(p: Platform) -> Seq<char> {
    match p {
        Platform::MacOs => "CommandOrControl+Shift+Space"@,
        Platform::Other => "Control+Shift+Space"@,
    }
}

/// The default settings of a platform.
pub open spec fn default_config(p: Platform) -> ConfigView {
    ConfigView {
        shortcut: default_shortcut_text(p),
        theme: "dark"@,
        max_results: DEFAULT_MAX_RESULTS,
        window_width: DEFAULT_WINDOW_WIDTH,
    }
}

/// The default shortcut of a platform.
pub fn default_shortcut(p: Platform) -> (r: String)
    ensures
        r@ == default_shortcut_text(p),
{
    match p {
        Platform::MacOs => String::from_str("CommandOrControl+Shift+Space"),
        Platform::Other => String::from_str("Control+Shift+Space"),
    }
}

impl Config {
    /// The default settings of a platform.
    pub fn for_platform(p: Platform) -> (r: Config)
        ensures
            r@ == default_config(p),
    {
        Config {
            shortcut: default_shortcut(p),
            theme: String::from_str("dark"),
            max_results: DEFAULT_MAX_RESULTS,
            window_width: DEFAULT_WINDOW_WIDTH,
        }
    }
}

impl Default for Config {
    /// The default settings of the platforms other than Apple's; where the
    /// host platform matters, use `Config::for_platform`.
    fn default() -> (r: Config)
        ensures
            r@ == default_config(Platform::Other),
    {
        Config::for_platform(Platform::Other)
    }
}

/// Settings to change; a field left `None` keeps its current value.
#[derive(Debug, Clone)]
pub struct ConfigUpdate {
    pub shortcut: Option<String>,
    pub theme: Option<String>,
    pub max_results: Option<u32>,
    pub window_width: Option<u32>,
}

pub struct ConfigUpdateView {
    pub shortcut: Option<Seq<char>>,
    pub theme: Option<Seq<char>>,
    pub max_results: Option<u32>,
    pub window_width: Option<u32>,
}

impl View for ConfigUpdate {
    type V = ConfigUpdateView;

    open spec fn view(&self) -> ConfigUpdateView {
        ConfigUpdateView {
            shortcut: self.shortcut.deep_view(),
            theme: self.theme.deep_view(),
            max_results: self.max_results,
            window_width: self.window_width,
        }
    }
}

/// `c` with the fields that `u` provides replaced.
pub open spec fn updated(c: ConfigView, u: ConfigUpdateView) -> ConfigView {
    ConfigView {
        shortcut: match u.shortcut {
            Some(s) => s,
            None => c.shortcut,
        },
        theme: match u.theme {
            Some(t) => t,
            None => c.theme,
        },
        max_results: match u.max_results {
            Some(m) => m,
            None => c.max_results,
        },
        window_width: match u.window_width {
            Some(w) => w,
            None => c.window_width,
        },
    }
}

impl Config {
    /// These settings with the fields that `update` provides replaced. The
    /// update is refused, and the settings left as they were, when the
    /// resulting theme would be other than `"dark"` or `"light"`: the
    /// settings file could not be read back with it.
    pub fn apply_update(self, update: ConfigUpdate) -> (r: Result<Config, ConfigError>)
        ensures
            r is Ok <==> known_theme(updated(self@, update@).theme),
            r matches Ok(c) ==> c@ == updated(self@, update@) && known_theme(c.theme@),
            r matches Err(e) ==> e matches ConfigError::UnknownTheme(t) && t@ == updated(
                self@,
                update@,
            ).theme,
    {
        let mut c = self;
        if let Some(s) = update.shortcut {
            c.shortcut = s;
        }
        if let Some(t) = update.theme {
            c.theme = t;
        }
        if let Some(m) = update.max_results {
            c.max_results = m;
        }
        if let Some(w) = update.window_width {
            c.window_width = w;
        }
        if text_equals(c.theme.as_str(), "dark") || text_equals(c.theme.as_str(), "light") {
            Ok(c)
        } else {
            Err(ConfigError::UnknownTheme(c.theme))
        }
    }
}

/// The settings file's text up to the shortcut's value.
pub const CONFIG_HEAD: &'static str = "# Atuin Bar Configuration\n\n# Global shortcut to toggle the window\n# Examples: \"CommandOrControl+Shift+Space\", \"Alt+Space\", \"Super+H\"\nshortcut = \"";

/// The settings file's text between the shortcut's value and the theme's.
pub const CONFIG_THEME: &'static str = "\"\n\n# Theme: \"dark\" or \"light\" (default: \"dark\")\ntheme = \"";

/// The settings file's text between the theme's value and the result count.
pub const CONFIG_MAX_RESULTS: &'static str = "\"\n\n# Maximum number of results to display (default: 20)\nmax_results = ";

/// The settings file's text between the result count and the window width.
pub const CONFIG_WINDOW_WIDTH: &'static str = "\n\n# Window width in pixels (default: 700)\nwindow_width = ";

/// The settings file's text after the window width.
pub const CONFIG_END: &'static str = "\n";

/// The settings file's text for a record, comments included. Text values
/// are written as TOML basic strings, with their quotes, backslashes and
/// control characters escaped.
pub open spec fn config_text(c: ConfigView) -> Seq<char> {
    CONFIG_HEAD@ + toml_escaped(c.shortcut) + CONFIG_THEME@ + toml_escaped(c.theme)
        + CONFIG_MAX_RESULTS@ + decimal(
        c.max_results as nat,
    ) + CONFIG_WINDOW_WIDTH@ + decimal(c.window_width as nat) + CONFIG_END@
}

impl Config {
    /// The settings file's text for these settings, with the explanatory
    /// comments of the default file.
    pub fn to_toml_text(&self) -> (r: String)
        ensures
            r@ == config_text(self@),
    {
        let mut r = String::from_str(CONFIG_HEAD);
        push_toml_escaped(&mut r, self.shortcut.as_str());
        r.append(CONFIG_THEME);
        push_toml_escaped(&mut r, self.theme.as_str());
        r.append(CONFIG_MAX_RESULTS);
        push_decimal(&mut r, self.max_results);
        r.append(CONFIG_WINDOW_WIDTH);
        push_decimal(&mut r, self.window_width);
        r.append(CONFIG_END);
        r
    }
}

/// A text entry: its value, the fallback when it is absent, or `None` when it
/// holds something other than text.
pub open spec fn text_field(v: Option<TomlScalarView>, fallback: Seq<char>) -> Option<Seq<char>> {
    match v {
        None => Some(fallback),
        Some(TomlScalarView::Text(s)) => Some(s),
        Some(_) => None,
    }
}

/// Whether `t` is one of the two themes.
pub open spec fn known_theme(t: Seq<char>) -> bool {
    t == "dark"@ || t == "light"@
}

/// The theme entry: its value, the fallback when it is absent, or `None`
/// when it holds anything but `"dark"` or `"light"`.
pub open spec fn theme_field(v: Option<TomlScalarView>, fallback: Seq<char>) -> Option<Seq<char>> {
    match v {
        None => Some(fallback),
        Some(TomlScalarView::Text(s)) => if known_theme(s) {
            Some(s)
        } else {
            None
        },
        Some(_) => None,
    }
}

/// A count entry: its value, the fallback when it is absent, or `None` when
/// it holds something other than an integer that fits in a `u32`.
pub open spec fn count_field(v: Option<TomlScalarView>, fallback: u32) -> Option<u32> {
    match v {
        None => Some(fallback),
        Some(TomlScalarView::Integer(i)) => if 0 <= i <= u32::MAX {
            Some(i as u32)
        } else {
            None
        },
        Some(_) => None,
    }
}

/// The settings from the values found for the four keys: the defaults fill
/// the absent ones, and a value of the wrong kind spoils the whole record.
pub open spec fn config_from_values(
    p: Platform,
    shortcut: Option<TomlScalarView>,
    theme: Option<TomlScalarView>,
    max_results: Option<TomlScalarView>,
    window_width: Option<TomlScalarView>,
) -> Option<ConfigView> {
    let d = default_config(p);
    match (
        text_field(shortcut, d.shortcut),
        theme_field(theme, d.theme),
        count_field(max_results, d.max_results),
        count_field(window_width, d.window_width),
    ) {
        (Some(s), Some(t), Some(m), Some(w)) => Some(
            ConfigView { shortcut: s, theme: t, max_results: m, window_width: w },
        ),
        _ => None,
    }
}

/// The value stored under `key`, if any.
pub open spec fn entry_of(entries: Map<Seq<char>, TomlScalarView>, key: Seq<char>) -> Option<
    TomlScalarView,
> {
    if entries.contains_key(key) {
        Some(entries[key])
    } else {
        None
    }
}

/// The settings that a document's entries hold; other keys are ignored.
pub open spec fn config_from_entries(p: Platform, entries: Map<Seq<char>, TomlScalarView>) -> Option<
    ConfigView,
> {
    config_from_values(
        p,
        entry_of(entries, "shortcut"@),
        entry_of(entries, "theme"@),
        entry_of(entries, "max_results"@),
        entry_of(entries, "window_width"@),
    )
}

/// Whether a settings file's text is discarded: it is not TOML, or one of
/// the four keys holds a value of the wrong kind (a theme other than
/// `"dark"` or `"light"` included).
pub open spec fn malformed(p: Platform, text: Seq<char>) -> bool {
    match toml_document(text) {
        None => true,
        Some(entries) => config_from_entries(p, entries) is None,
    }
}

/// The settings that a file's text gives: those it holds, or the defaults
/// when it is malformed.
pub open spec fn loaded_config(p: Platform, text: Seq<char>) -> ConfigView {
    match toml_document(text) {
        Some(entries) => match config_from_entries(p, entries) {
            Some(c) => c,
            None => default_config(p),
        },
        None => default_config(p),
    }
}

/// The view of an optional value.
pub open spec fn scalar_view(v: Option<TomlScalar>) -> Option<TomlScalarView> {
    match v {
        Some(x) => Some(x@),
        None => None,
    }
}

fn text_value(v: Option<TomlScalar>, fallback: String) -> (r: Option<String>)
    ensures
        r is Some <==> text_field(scalar_view(v), fallback@) is Some,
        r matches Some(s) ==> text_field(scalar_view(v), fallback@) == Some(s@),
{
    match v {
        None => Some(fallback),
        Some(TomlScalar::Text(s)) => Some(s),
        Some(_) => None,
    }
}

fn theme_value(v: Option<TomlScalar>) -> (r: Option<String>)
    ensures
        r is Some <==> theme_field(scalar_view(v), "dark"@) is Some,
        r matches Some(s) ==> theme_field(scalar_view(v), "dark"@) == Some(s@),
{
    match v {
        None => Some(String::from_str("dark")),
        Some(TomlScalar::Text(s)) => {
            if text_equals(s.as_str(), "dark") || text_equals(s.as_str(), "light") {
                Some(s)
            } else {
                None
            }
        },
        Some(_) => None,
    }
}

fn count_value(v: Option<TomlScalar>, fallback: u32) -> (r: Option<u32>)
    ensures
        r == count_field(scalar_view(v), fallback),
{
    match v {
        None => Some(fallback),
        Some(TomlScalar::Integer(i)) => {
            if 0 <= i && i <= u32::MAX as i64 {
                Some(i as u32)
            } else {
                None
            }
        },
        Some(_) => None,
    }
}

/// The settings from the values found for the four keys (`None` where a key
/// is absent): the platform's defaults fill the absent ones, and `None` comes
/// back when a value has the wrong kind: a shortcut that is not text, a theme
/// other than `"dark"` or `"light"`, or a count that is not an integer from
/// zero to `u32::MAX`.
pub fn config_from_values_of(
    p: Platform,
    shortcut: Option<TomlScalar>,
    theme: Option<TomlScalar>,
    max_results: Option<TomlScalar>,
    window_width: Option<TomlScalar>,
) -> (r: Option<Config>)
    ensures
        r is Some <==> config_from_values(
            p,
            scalar_view(shortcut),
            scalar_view(theme),
            scalar_view(max_results),
            scalar_view(window_width),
        ) is Some,
        r matches Some(c) ==> config_from_values(
            p,
            scalar_view(shortcut),
            scalar_view(theme),
            scalar_view(max_results),
            scalar_view(window_width),
        ) == Some(c@),
{
    let s = text_value(shortcut, default_shortcut(p));
    let t = theme_value(theme);
    let m = count_value(max_results, DEFAULT_MAX_RESULTS);
    let w = count_value(window_width, DEFAULT_WINDOW_WIDTH);
    match (s, t, m, w) {
        (Some(s), Some(t), Some(m), Some(w)) => Some(
            Config { shortcut: s, theme: t, max_results: m, window_width: w },
        ),
        _ => None,
    }
}

/// The settings that a file's text gives: the values of the four keys, the
/// defaults for those that are absent, and the defaults alone when the text
/// is not TOML or a key holds a value of the wrong kind.
pub fn config_from_text(p: Platform, text: &str) -> (r: Config)
    ensures
        r@ == loaded_config(p, text@),
{
    match parse_toml_table(text) {
        None => Config::for_platform(p),
        Some(table) => {
            let shortcut = table_get(&table, "shortcut");
            let theme = table_get(&table, "theme");
            let max_results = table_get(&table, "max_results");
            let window_width = table_get(&table, "window_width");
            match config_from_values_of(p, shortcut, theme, max_results, window_width) {
                Some(c) => c,
                None => Config::for_platform(p),
            }
        },
    }
}

/// What became of the attempt to read the settings file.
#[derive(Debug, Clone)]
pub enum ConfigSource {
    /// The system names no configuration directory.
    NoConfigDir,
    /// The file does not exist.
    Missing,
    /// The file exists but could not be read.
    Unreadable,
    /// The file's text.
    Text(String),
}

/// The settings that a reading of the file gives.
pub open spec fn loaded_from(p: Platform, source: ConfigSource) -> ConfigView {
    match source {
        ConfigSource::Text(t) => loaded_config(p, t@),
        _ => default_config(p),
    }
}

/// The settings after reading the file: the platform's defaults when there
/// is no file to read, it cannot be read, or its text is malformed. Never
/// fails.
pub fn config_from_source(p: Platform, source: ConfigSource) -> (r: Config)
    ensures
        r@ == loaded_from(p, source),
{
    match source {
        ConfigSource::Text(t) => config_from_text(p, t.as_str()),
        _ => Config::for_platform(p),
    }
}

/// Loading gives the defaults when the file is absent, unreadable, or
/// malformed, and whenever the system names no configuration directory.
pub proof fn lemma_load_falls_back_to_default(p: Platform, source: ConfigSource)
    requires
        source matches ConfigSource::Text(t) ==> malformed(p, t@),
    ensures
        loaded_from(p, source) == default_config(p),
{
}

/// The loaded theme is always `"dark"` or `"light"`.
pub proof fn lemma_loaded_theme_is_known(p: Platform, source: ConfigSource)
    ensures
        known_theme(loaded_from(p, source).theme),
{
}

/// Whether a settings file's text is discarded in favour of the defaults.
pub fn is_malformed(p: Platform, text: &str) -> (r: bool)
    ensures
        r == malformed(p, text@),
{
    match parse_toml_table(text) {
        None => true,
        Some(table) => {
            let shortcut = table_get(&table, "shortcut");
            let theme = table_get(&table, "theme");
            let max_results = table_get(&table, "max_results");
            let window_width = table_get(&table, "window_width");
            config_from_values_of(p, shortcut, theme, max_results, window_width).is_none()
        },
    }
}

/// Changing only the theme of the default settings to `"light"` gives the
/// default settings with that theme.
pub proof fn lemma_light_theme_update_of_default(p: Platform)
    ensures
        updated(
            default_config(p),
            ConfigUpdateView {
                shortcut: None,
                theme: Some("light"@),
                max_results: None,
                window_width: None,
            },
        ) == (ConfigView { theme: "light"@, ..default_config(p) }),
{
}

/// The entries that a settings file's text holds for a record.
pub open spec fn rendered_entries(c: ConfigView) -> Map<Seq<char>, TomlScalarView> {
    map![
        "shortcut"@ => TomlScalarView::Text(c.shortcut),
        "theme"@ => TomlScalarView::Text(c.theme),
        "max_results"@ => TomlScalarView::Integer(c.max_results as i64),
        "window_width"@ => TomlScalarView::Integer(c.window_width as i64),
    ]
}

/// Where the TOML reader reads a record's file text as the record's four
/// entries, loading that text gives the record back, for a record whose
/// theme is `"dark"` or `"light"`.
pub proof fn lemma_reload_of_rendered(p: Platform, c: ConfigView)
    requires
        known_theme(c.theme),
        toml_document(config_text(c)) == Some(rendered_entries(c)),
    ensures
        loaded_config(p, config_text(c)) == c,
{
    reveal_strlit("shortcut");
    reveal_strlit("theme");
    reveal_strlit("max_results");
    reveal_strlit("window_width");
    assert("shortcut"@.len() == 8 && "theme"@.len() == 5);
    assert("max_results"@.len() == 11 && "window_width"@.len() == 12);
    let e = rendered_entries(c);
    assert(entry_of(e, "shortcut"@) == Some(TomlScalarView::Text(c.shortcut)));
    assert(entry_of(e, "theme"@) == Some(TomlScalarView::Text(c.theme)));
    assert(entry_of(e, "max_results"@) == Some(TomlScalarView::Integer(c.max_results as i64)));
    assert(entry_of(e, "window_width"@) == Some(
        TomlScalarView::Integer(c.window_width as i64),
    ));
}

/// An update applies again to its own result without change, so repeating
/// it leaves the record and the file's text as they were; and where the
/// TOML reader reads the result's file text as its four entries, loading
/// that text gives the result of an accepted update back.
pub proof fn lemma_accepted_update_is_stable(p: Platform, c: ConfigView, u: ConfigUpdateView)
    ensures
        updated(updated(c, u), u) == updated(c, u),
        config_text(updated(updated(c, u), u)) == config_text(updated(c, u)),
        known_theme(updated(c, u).theme) && toml_document(config_text(updated(c, u)))
            == Some(rendered_entries(updated(c, u))) ==> loaded_config(
            p,
            config_text(updated(c, u)),
        ) == updated(c, u),
{
    let r = updated(c, u);
    if known_theme(r.theme) && toml_document(config_text(r)) == Some(rendered_entries(r)) {
        lemma_reload_of_rendered(p, r);
    }
}

/// Why the settings could not be changed.
#[derive(Debug, Clone, PartialEq, Eq)]
pub enum ConfigError {
    /// The system names no configuration directory.
    PathUnavailable,
    /// The file could not be written; holds the system's description.
    WriteFailed(String),
    /// The update would leave a theme other than `"dark"` or `"light"`; holds it.
    UnknownTheme(String),
}

/// The display text of a settings error.
pub open spec fn config_error_text(e: ConfigError) -> Seq<char> {
    match e {
        ConfigError::PathUnavailable => "Could not determine config path"@,
        ConfigError::WriteFailed(m) => "Failed to write config: "@ + m@,
        ConfigError::UnknownTheme(t) => "Unknown theme (expected \"dark\" or \"light\"): "@ + t@,
    }
}

impl ConfigError {
    /// The error as the text shown to the user.
    pub fn message(&self) -> (r: String)
        ensures
            r@ == config_error_text(*self),
    {
        match self {
            ConfigError::PathUnavailable => String::from_str("Could not determine config path"),
            ConfigError::WriteFailed(m) => String::from_str("Failed to write config: ").concat(
                m.as_str(),
            ),
            ConfigError::UnknownTheme(t) => String::from_str(
                "Unknown theme (expected \"dark\" or \"light\"): ",
            ).concat(t.as_str()),
        }
    }
}

} // verus!
