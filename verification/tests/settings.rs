use cozymdt::settings::{
    appearance, custom_font_path, settings_to_create, settle_custom_font, settle_settings, SettingsFile,
    SettingsSource, TitleBarMode, DEFAULT_SETTINGS,
};
use cozymdt::theme::Palette;

fn settings(theme: &str, font: &str, title_bar: &str, rounded: bool) -> SettingsFile {
    SettingsFile {
        theme: theme.to_string(),
        font: font.to_string(),
        title_bar: title_bar.to_string(),
        rounded_corners: rounded,
    }
}

#[test]
fn defaults() {
    let d = SettingsFile::default();
    assert_eq!(d, settings("frappe", "", "custom", true));
}

#[test]
fn default_file_names_the_defaults() {
    assert!(DEFAULT_SETTINGS.contains("\"theme\": \"frappe\""));
    assert!(DEFAULT_SETTINGS.contains("\"title_bar\": \"custom\""));
    assert!(DEFAULT_SETTINGS.contains("\"rounded_corners\": true"));
}

#[test]
fn parsed_settings_are_kept() {
    let s = settings("mocha", "C:\\f.ttf", "none", false);
    let (got, warnings) = settle_settings(None, SettingsSource::Parsed(s.clone()));
    assert_eq!(got, s);
    assert!(warnings.is_empty());
}

#[test]
fn malformed_file_gives_defaults_with_a_warning() {
    let (got, warnings) = settle_settings(None, SettingsSource::Malformed("bad token".to_string()));
    assert_eq!(got, SettingsFile::default());
    assert_eq!(warnings, vec!["Could not parse settings.jsonc (bad token), using defaults".to_string()]);
}

#[test]
fn unreadable_file_gives_defaults_with_a_warning() {
    let (got, warnings) = settle_settings(
        Some("denied".to_string()),
        SettingsSource::Unreadable("not found".to_string()),
    );
    assert_eq!(got, SettingsFile::default());
    assert_eq!(
        warnings,
        vec![
            "Could not create settings file: denied".to_string(),
            "Could not read settings.jsonc (not found), using defaults".to_string(),
        ]
    );
}

#[test]
fn blank_font_uses_the_bundled_one() {
    assert_eq!(custom_font_path(&settings("frappe", "", "custom", true)), None);
    assert_eq!(custom_font_path(&settings("frappe", "  \t", "custom", true)), None);
    assert_eq!(
        custom_font_path(&settings("frappe", " C:\\a.ttf", "custom", true)),
        Some(" C:\\a.ttf".to_string())
    );
}

#[test]
fn unreadable_font_falls_back_with_a_warning() {
    let (bytes, warnings) = settle_custom_font("x.ttf", Err("missing".to_string()));
    assert_eq!(bytes, None);
    assert_eq!(warnings, vec!["Could not load custom font 'x.ttf' (missing), using default font".to_string()]);
    let (bytes, warnings) = settle_custom_font("x.ttf", Ok(vec![1, 2, 3]));
    assert_eq!(bytes, Some(vec![1, 2, 3]));
    assert!(warnings.is_empty());
}

#[test]
fn title_bar_names() {
    assert_eq!(TitleBarMode::from_name("windows"), TitleBarMode::Windows);
    assert_eq!(TitleBarMode::from_name("WINDOWS"), TitleBarMode::Windows);
    assert_eq!(TitleBarMode::from_name("None"), TitleBarMode::Hidden);
    assert_eq!(TitleBarMode::from_name("custom"), TitleBarMode::Custom);
    assert_eq!(TitleBarMode::from_name("fancy"), TitleBarMode::Custom);
    assert_eq!(TitleBarMode::from_lowercase("None"), TitleBarMode::Custom);
}

#[test]
fn native_title_bar_has_decorations_and_square_corners() {
    let a = appearance(&settings("latte", "", "windows", true));
    assert_eq!(a.palette, Palette::latte());
    assert_eq!(a.title_bar, TitleBarMode::Windows);
    assert!(a.decorations);
    assert!(!a.rounded);
}

#[test]
fn drawn_title_bars_are_rounded_when_asked() {
    let a = appearance(&settings("x", "", "custom", true));
    assert_eq!(a.palette, Palette::frappe());
    assert!(!a.decorations);
    assert!(a.rounded);
    let b = appearance(&settings("mocha", "", "none", false));
    assert_eq!(b.title_bar, TitleBarMode::Hidden);
    assert!(!b.decorations);
    assert!(!b.rounded);
}

#[test]
fn defaults_are_written_only_when_the_file_is_missing() {
    assert_eq!(settings_to_create(false), Some(DEFAULT_SETTINGS.to_string()));
    assert_eq!(settings_to_create(true), None);
}

#[test]
fn ascii_names_ignore_case_for_title_bars() {
    assert_eq!(TitleBarMode::from_name("WiNdOwS"), TitleBarMode::from_name("windows"));
    assert_eq!(TitleBarMode::from_name("NONE"), TitleBarMode::from_name(&"NONE".to_lowercase()));
}
