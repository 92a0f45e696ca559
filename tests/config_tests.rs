use atuin_bar_lib::config::{
    config_from_source, config_from_text, is_malformed, config_from_values_of, default_shortcut, ConfigError,
    ConfigSource, ConfigUpdate, Platform,
};
use atuin_bar_lib::toml_table::TomlScalar;
use atuin_bar_lib::Config;

const MAC_DEFAULT_FILE: &str = r#"# Atuin Bar Configuration

# Global shortcut to toggle the window
# Examples: "CommandOrControl+Shift+Space", "Alt+Space", "Super+H"
shortcut = "CommandOrControl+Shift+Space"

# Theme: "dark" or "light" (default: "dark")
theme = "dark"

# Maximum number of results to display (default: 20)
max_results = 20

# Window width in pixels (default: 700)
window_width = 700
"#;

fn theme_only(theme: &str) -> ConfigUpdate {
    ConfigUpdate {
        shortcut: None,
        theme: Some(theme.to_string()),
        max_results: None,
        window_width: None,
    }
}

fn same(a: &Config, b: &Config) -> bool {
    a.shortcut == b.shortcut
        && a.theme == b.theme
        && a.max_results == b.max_results
        && a.window_width == b.window_width
}

#[test]
fn test_config_default_window_width() {
    let config = Config::default();
    assert_eq!(
        config.window_width, 700,
        "Default window width should be 700"
    );
}

#[test]
fn default_config_fields() {
    let other = Config::for_platform(Platform::Other);
    assert_eq!(other.window_width, 700);
    assert_eq!(other.max_results, 20);
    assert_eq!(other.theme, "dark");
    assert_eq!(other.shortcut, "Control+Shift+Space");
    let mac = Config::for_platform(Platform::MacOs);
    assert_eq!(mac.window_width, 700);
    assert_eq!(mac.max_results, 20);
    assert_eq!(mac.theme, "dark");
    assert_eq!(mac.shortcut, "CommandOrControl+Shift+Space");
    assert_eq!(default_shortcut(Platform::MacOs), "CommandOrControl+Shift+Space");
    assert_eq!(Config::default().shortcut, "Control+Shift+Space");
}

#[test]
fn theme_update_of_default_changes_only_theme() {
    let updated = Config::for_platform(Platform::Other).apply_update(theme_only("light")).unwrap();
    assert_eq!(updated.theme, "light");
    assert_eq!(updated.shortcut, "Control+Shift+Space");
    assert_eq!(updated.max_results, 20);
    assert_eq!(updated.window_width, 700);
}

#[test]
fn theme_update_reloads_to_same_record() {
    let updated = Config::for_platform(Platform::Other).apply_update(theme_only("light")).unwrap();
    let reloaded = config_from_text(Platform::Other, &updated.to_toml_text());
    assert!(same(&updated, &reloaded));
}

#[test]
fn update_replaces_every_provided_field() {
    let update = ConfigUpdate {
        shortcut: Some("Alt+Space".to_string()),
        theme: None,
        max_results: Some(5),
        window_width: Some(1024),
    };
    let c = Config::for_platform(Platform::MacOs).apply_update(update).unwrap();
    assert_eq!(c.shortcut, "Alt+Space");
    assert_eq!(c.theme, "dark");
    assert_eq!(c.max_results, 5);
    assert_eq!(c.window_width, 1024);
}

#[test]
fn default_text_matches_commented_template() {
    assert_eq!(Config::for_platform(Platform::MacOs).to_toml_text(), MAC_DEFAULT_FILE);
}

#[test]
fn rendered_numbers_are_decimal() {
    let c = Config {
        shortcut: "Super+H".to_string(),
        theme: "light".to_string(),
        max_results: 0,
        window_width: 4294967295,
    };
    let text = c.to_toml_text();
    assert!(text.contains("shortcut = \"Super+H\"\n"));
    assert!(text.contains("theme = \"light\"\n"));
    assert!(text.contains("max_results = 0\n"));
    assert!(text.ends_with("window_width = 4294967295\n"));
    let reloaded = config_from_text(Platform::MacOs, &text);
    assert!(same(&c, &reloaded));
}

#[test]
fn load_fills_missing_keys_with_defaults() {
    let c = config_from_text(Platform::Other, "theme = \"light\"\nextra = 3\n");
    assert_eq!(c.theme, "light");
    assert_eq!(c.shortcut, "Control+Shift+Space");
    assert_eq!(c.max_results, 20);
    assert_eq!(c.window_width, 700);
}

#[test]
fn load_of_malformed_text_gives_defaults() {
    let defaults = Config::for_platform(Platform::Other);
    for text in [
        "this is not toml ===",
        "max_results = \"many\"\ntheme = \"light\"",
        "theme = 3",
        "max_results = -1\ntheme = \"light\"",
        "window_width = 4294967296",
        "window_width = 7.5",
        "theme = \"light\"\ntheme = \"dark\"",
    ] {
        let c = config_from_text(Platform::Other, text);
        assert!(same(&c, &defaults), "text {:?} should load as defaults", text);
    }
}

#[test]
fn load_of_empty_text_gives_defaults() {
    let c = config_from_text(Platform::MacOs, "");
    assert!(same(&c, &Config::for_platform(Platform::MacOs)));
}

#[test]
fn load_without_readable_file_gives_defaults() {
    let defaults = Config::for_platform(Platform::MacOs);
    for source in [ConfigSource::NoConfigDir, ConfigSource::Missing, ConfigSource::Unreadable] {
        assert!(same(&config_from_source(Platform::MacOs, source), &defaults));
    }
    let c = config_from_source(
        Platform::MacOs,
        ConfigSource::Text("max_results = 7".to_string()),
    );
    assert_eq!(c.max_results, 7);
    assert_eq!(c.shortcut, "CommandOrControl+Shift+Space");
}

#[test]
fn values_of_wrong_kind_spoil_the_record() {
    assert!(config_from_values_of(Platform::Other, None, None, None, None).is_some());
    assert!(config_from_values_of(
        Platform::Other,
        Some(TomlScalar::Integer(1)),
        None,
        None,
        None
    )
    .is_none());
    assert!(config_from_values_of(Platform::Other, None, Some(TomlScalar::Other), None, None)
        .is_none());
    assert!(config_from_values_of(
        Platform::Other,
        None,
        None,
        Some(TomlScalar::Text("20".to_string())),
        None
    )
    .is_none());
    let c = config_from_values_of(
        Platform::Other,
        Some(TomlScalar::Text("Alt+Space".to_string())),
        None,
        Some(TomlScalar::Integer(4294967295)),
        Some(TomlScalar::Integer(0)),
    )
    .unwrap();
    assert_eq!(c.shortcut, "Alt+Space");
    assert_eq!(c.theme, "dark");
    assert_eq!(c.max_results, 4294967295);
    assert_eq!(c.window_width, 0);
}

#[test]
fn config_error_messages() {
    assert_eq!(ConfigError::PathUnavailable.message(), "Could not determine config path");
    assert_eq!(
        ConfigError::WriteFailed("disk full".to_string()).message(),
        "Failed to write config: disk full"
    );
}

#[test]
fn unknown_theme_is_malformed() {
    let text = "theme = \"blue\"\nmax_results = 5\n";
    assert!(is_malformed(Platform::Other, text));
    let c = config_from_text(Platform::Other, text);
    assert!(same(&c, &Config::for_platform(Platform::Other)));
    let light = config_from_text(Platform::Other, "theme = \"light\"");
    assert_eq!(light.theme, "light");
    assert!(!is_malformed(Platform::Other, "theme = \"light\""));
    assert!(config_from_values_of(
        Platform::Other,
        None,
        Some(TomlScalar::Text("Dark".to_string())),
        None,
        None
    )
    .is_none());
}

#[test]
fn malformed_detection() {
    assert!(is_malformed(Platform::MacOs, "not = toml = at all"));
    assert!(is_malformed(Platform::MacOs, "max_results = -3"));
    assert!(!is_malformed(Platform::MacOs, ""));
    assert!(!is_malformed(Platform::MacOs, MAC_DEFAULT_FILE));
}

#[test]
fn text_values_are_escaped() {
    let c = Config {
        shortcut: "Alt+\"Q\"\\x\ny\tz\u{1}\u{7f}".to_string(),
        theme: "dark".to_string(),
        max_results: 3,
        window_width: 9,
    };
    let text = c.to_toml_text();
    assert!(text.contains("shortcut = \"Alt+\\\"Q\\\"\\\\x\\ny\\tz\\u0001\\u007F\"\n"));
    let reloaded = config_from_text(Platform::Other, &text);
    assert!(same(&c, &reloaded));
}

#[test]
fn update_to_unknown_theme_is_refused() {
    let mut c = Config::for_platform(Platform::Other);
    c.max_results = 50;
    let e = c.apply_update(theme_only("blue")).unwrap_err();
    assert_eq!(e, ConfigError::UnknownTheme("blue".to_string()));
    assert_eq!(
        e.message(),
        "Unknown theme (expected \"dark\" or \"light\"): blue"
    );
}

#[test]
fn repeated_update_keeps_record_and_text() {
    let mut base = Config::for_platform(Platform::MacOs);
    base.max_results = 50;
    let update = || ConfigUpdate {
        shortcut: Some("Alt+Space".to_string()),
        theme: Some("light".to_string()),
        max_results: None,
        window_width: Some(800),
    };
    let first = base.apply_update(update()).unwrap();
    let text = first.to_toml_text();
    let reloaded = config_from_text(Platform::MacOs, &text);
    assert!(same(&first, &reloaded));
    assert_eq!(reloaded.max_results, 50);
    let second = reloaded.apply_update(update()).unwrap();
    assert!(same(&first, &second));
    assert_eq!(second.to_toml_text(), text);
}
