//! The settings file: its fields and defaults, what is made of a file that
//! could not be read or parsed, and the window appearance it selects.

use vstd::prelude::*;

use crate::text::{
    all_ascii, ascii_lowercase, ascii_lowercase_is_idempotent, lowercase_of, str_eq, to_lowercase,
    trim, trimmed,
};
use crate::theme::{palette_named, Palette};

verus! {

/// The text written to a fresh settings file.
pub const DEFAULT_SETTINGS: &'static str = r#"{
    // This is the settings file for CozyMDT settings
    // Available themes: "latte", "frappe", "macchiato", "mocha"
    "theme": "frappe",

    // Path to a custom .ttf font file (use the full path, e.g. "C:\\Fonts\\myfont.ttf").
    // Leave empty to use the default bundled font (JetBrainsMono Nerd Font)
    "font": "",

    // Available title bars:
    // "custom"  - CozyMDT's own drawn bar (drag, minimize, maximize, close)
    // "windows" - the normal Windows title bar
    // "none"    - no title bar at all (close only by typing "exit")
    "title_bar": "custom",

    // Rounded corners on the window. Only applies to "custom" and "none"
    // title bars — "windows" already handles its own corners natively.
    "rounded_corners": true
}
"#;

/// The fields of the settings file. Missing fields take their default.
#[derive(Clone, Debug, PartialEq, Eq)]
pub struct SettingsFile {
    pub theme: String,
    pub font: String,
    pub title_bar: String,
    pub rounded_corners: bool,
}

/// The settings as values.
pub struct SettingsView {
    pub theme: Seq<char>,
    pub font: Seq<char>,
    pub title_bar: Seq<char>,
    pub rounded_corners: bool,
}

impl View for SettingsFile {
    type V = SettingsView;

    open spec fn view(&self) -> SettingsView {
        SettingsView {
            theme: self.theme@,
            font: self.font@,
            title_bar: self.title_bar@,
            rounded_corners: self.rounded_corners,
        }
    }
}

/// The settings used when the file says nothing: the Frappé theme, the
/// bundled font, the custom title bar and rounded corners.
pub open spec fn default_settings() -> SettingsView {
    SettingsView {
        theme: "frappe"@,
        font: Seq::empty(),
        title_bar: "custom"@,
        rounded_corners: true,
    }
}

impl Default for SettingsFile {
    fn default() -> (s: SettingsFile)
        ensures
            s@ == default_settings(),
    {
        SettingsFile {
            theme: "frappe".to_owned(),
            font: String::new(),
            title_bar: "custom".to_owned(),
            rounded_corners: true,
        }
    }
}

/// The text of a fresh settings file, given whether one exists: the
/// default settings where none exists, and nothing where one does, so that
/// an existing file is never overwritten.
pub open spec fn settings_to_create_for(exists: bool) -> Option<Seq<char>> {
    if exists {
        None
    } else {
        Some(DEFAULT_SETTINGS@)
    }
}

/// What to write as the settings file, given whether one exists.
pub fn settings_to_create(exists: bool) -> (text: Option<String>)
    ensures
        match text {
            Some(t) => settings_to_create_for(exists) == Some(t@),
            None => settings_to_create_for(exists) is None,
        },
{
    if exists {
        None
    } else {
        Some(DEFAULT_SETTINGS.to_owned())
    }
}

/// What became of reading and parsing the settings file.
#[derive(Clone, Debug, PartialEq, Eq)]
pub enum SettingsSource {
    /// The file was read and parsed.
    Parsed(SettingsFile),
    /// The file was read but is not valid JSON5 for the settings; the text
    /// describes the error.
    Malformed(String),
    /// The file could not be read; the text describes the error.
    Unreadable(String),
}

/// The warning shown when a fresh settings file could not be written.
pub open spec fn create_warning(error: Seq<char>) -> Seq<char> {
    "Could not create settings file: "@ + error
}

/// The settings in effect after loading, and the warning that the source
/// brings, if any.
pub open spec fn loaded_settings(source: SettingsSource) -> (SettingsView, Seq<Seq<char>>) {
    match source {
        SettingsSource::Parsed(s) => (s@, Seq::empty()),
        SettingsSource::Malformed(e) => (
            default_settings(),
            seq!["Could not parse settings.jsonc ("@ + e@ + "), using defaults"@],
        ),
        SettingsSource::Unreadable(e) => (
            default_settings(),
            seq!["Could not read settings.jsonc ("@ + e@ + "), using defaults"@],
        ),
    }
}

/// The texts of a list of strings.
pub open spec fn texts(v: Seq<String>) -> Seq<Seq<char>> {
    v.map_values(|s: String| s@)
}

/// Turns the outcome of creating (where the file was missing), reading and
/// parsing the settings file into the settings in effect and the warnings
/// to show: a file that cannot be read or parsed gives the defaults, never
/// an error.
pub fn settle_settings(create_error: Option<String>, source: SettingsSource) -> (res: (
    SettingsFile,
    Vec<String>,
))
    ensures
        res.0@ == loaded_settings(source).0,
        texts(res.1@) == match create_error {
            Some(e) => seq![create_warning(e@)],
            None => Seq::<Seq<char>>::empty(),
        } + loaded_settings(source).1,
{
    let mut warnings: Vec<String> = Vec::new();
    match create_error {
        Some(e) => {
            let mut w = "Could not create settings file: ".to_owned();
            w.append(e.as_str());
            warnings.push(w);
        },
        None => {},
    }
    let ghost first = texts(warnings@);
    let settings = match source {
        SettingsSource::Parsed(s) => s,
        SettingsSource::Malformed(e) => {
            let mut w = "Could not parse settings.jsonc (".to_owned();
            w.append(e.as_str());
            w.append("), using defaults");
            warnings.push(w);
            SettingsFile::default()
        },
        SettingsSource::Unreadable(e) => {
            let mut w = "Could not read settings.jsonc (".to_owned();
            w.append(e.as_str());
            w.append("), using defaults");
            warnings.push(w);
            SettingsFile::default()
        },
    };
    assert(texts(warnings@) =~= first + loaded_settings(source).1);
    (settings, warnings)
}

/// The font file to load: the configured path, unless it is empty or only
/// white space, in which case the bundled font is used.
pub fn custom_font_path(settings: &SettingsFile) -> (res: Option<String>)
    ensures
        res is None <==> trimmed(settings.font@).len() == 0,
        res matches Some(p) ==> p@ == settings.font@,
{
    if trim(settings.font.as_str()).unicode_len() == 0 {
        None
    } else {
        Some(settings.font.clone())
    }
}

/// The warning shown when the custom font `font` could not be read.
pub open spec fn font_warning(font: Seq<char>, error: Seq<char>) -> Seq<char> {
    "Could not load custom font '"@ + font + "' ("@ + error + "), using default font"@
}

/// The font bytes to use after trying to read the custom font `font`, and
/// the warnings to show: a font that cannot be read falls back to the
/// bundled one with a warning.
pub fn settle_custom_font(font: &str, read: Result<Vec<u8>, String>) -> (res: (
    Option<Vec<u8>>,
    Vec<String>,
))
    ensures
        match read {
            Ok(bytes) => res.0 == Some(bytes) && res.1@.len() == 0,
            Err(e) => res.0 is None && texts(res.1@) == seq![font_warning(font@, e@)],
        },
{
    let mut warnings: Vec<String> = Vec::new();
    match read {
        Ok(bytes) => (Some(bytes), warnings),
        Err(e) => {
            let mut w = "Could not load custom font '".to_owned();
            w.append(font);
            w.append("' (");
            w.append(e.as_str());
            w.append("), using default font");
            warnings.push(w);
            assert(texts(warnings@) =~= seq![font_warning(font@, e@)]);
            (None, warnings)
        },
    }
}

/// Which title bar the window has.
#[derive(Clone, Copy, Debug, PartialEq, Eq, Structural)]
pub enum TitleBarMode {
    /// The terminal's own drawn bar.
    Custom,
    /// The operating system's title bar.
    Windows,
    /// No title bar at all; the window closes only by `exit`.
    Hidden,
}

/// The title bar that an already lower-cased name selects: `windows`,
/// `none`, and the custom bar for anything else.
pub open spec fn title_bar_for_lowercase(lower: Seq<char>) -> TitleBarMode {
    if lower == "windows"@ {
        TitleBarMode::Windows
    } else if lower == "none"@ {
        TitleBarMode::Hidden
    } else {
        TitleBarMode::Custom
    }
}

/// The title bar that a name selects, ignoring case.
pub open spec fn title_bar_named(name: Seq<char>) -> TitleBarMode {
    title_bar_for_lowercase(lowercase_of(name))
}

impl TitleBarMode {
    /// The title bar for a name that is already in lower case.
    pub fn from_lowercase(lower: &str) -> (mode: TitleBarMode)
        ensures
            mode == title_bar_for_lowercase(lower@),
    {
        if str_eq(lower, "windows") {
            TitleBarMode::Windows
        } else if str_eq(lower, "none") {
            TitleBarMode::Hidden
        } else {
            TitleBarMode::Custom
        }
    }

    /// The title bar a name selects, ignoring case; unknown names give the
    /// custom bar.
    pub fn from_name(name: &str) -> (mode: TitleBarMode)
        ensures
            mode == title_bar_named(name@),
            all_ascii(name@) ==> mode == title_bar_for_lowercase(ascii_lowercase(name@)),
    {
        let lower = to_lowercase(name);
        TitleBarMode::from_lowercase(lower.as_str())
    }
}

/// For ASCII title-bar names, case does not matter: names that agree once
/// their capitals are made small select the same bar.
pub proof fn ascii_title_bar_names_ignore_case(a: Seq<char>, b: Seq<char>)
    requires
        all_ascii(a),
        all_ascii(b),
        ascii_lowercase(a) == ascii_lowercase(b),
    ensures
        title_bar_for_lowercase(ascii_lowercase(a)) == title_bar_for_lowercase(ascii_lowercase(b)),
{
}

/// An ASCII title-bar name and its lower-case form select the same bar.
pub proof fn lowercased_title_bar_name_selects_the_same(name: Seq<char>)
    requires
        all_ascii(name),
    ensures
        all_ascii(ascii_lowercase(name)),
        title_bar_for_lowercase(ascii_lowercase(ascii_lowercase(name))) == title_bar_for_lowercase(
            ascii_lowercase(name),
        ),
{
    ascii_lowercase_is_idempotent(name);
}

/// How the window looks, as the settings select it.
#[derive(Clone, Copy, Debug, PartialEq, Eq, Structural)]
pub struct Appearance {
    pub palette: Palette,
    pub title_bar: TitleBarMode,
    /// Whether the operating system draws the window's decorations.
    pub decorations: bool,
    /// Whether the window is borderless with rounded, transparent corners.
    pub rounded: bool,
}

/// The appearance that settings select: the operating system's
/// decorations only with its own title bar, and rounded corners only where
/// asked for and the terminal draws the frame itself.
pub open spec fn appearance_for(settings: SettingsView) -> Appearance {
    let title_bar = title_bar_named(settings.title_bar);
    Appearance {
        palette: palette_named(settings.theme),
        title_bar,
        decorations: title_bar == TitleBarMode::Windows,
        rounded: settings.rounded_corners && title_bar != TitleBarMode::Windows,
    }
}

/// The appearance the settings select.
pub fn appearance(settings: &SettingsFile) -> (a: Appearance)
    ensures
        a == appearance_for(settings@),
{
    let palette = Palette::from_name(settings.theme.as_str());
    let title_bar = TitleBarMode::from_name(settings.title_bar.as_str());
    let windows = match title_bar {
        TitleBarMode::Windows => true,
        _ => false,
    };
    Appearance {
        palette,
        title_bar,
        decorations: windows,
        rounded: settings.rounded_corners && !windows,
    }
}

/// A window with the operating system's title bar is never given rounded
/// corners, and only such a window has the operating system's decorations.
pub proof fn native_title_bar_owns_the_frame(settings: SettingsView)
    ensures
        appearance_for(settings).decorations ==> !appearance_for(settings).rounded,
        appearance_for(settings).decorations <==> appearance_for(settings).title_bar
            == TitleBarMode::Windows,
{
}

/// The title bar named `windows` is the operating system's, `none` has no
/// bar, and every other name keeps the terminal's own bar.
pub proof fn title_bar_names_select_bars(lower: Seq<char>)
    ensures
        title_bar_for_lowercase("windows"@) == TitleBarMode::Windows,
        title_bar_for_lowercase("none"@) == TitleBarMode::Hidden,
        lower != "windows"@ && lower != "none"@ ==> title_bar_for_lowercase(lower)
            == TitleBarMode::Custom,
{
    reveal_strlit("windows");
    reveal_strlit("none");
    assert("none"@.len() != "windows"@.len());
}

/// Rounded corners are what the settings ask for, except with the
/// operating system's title bar, which never has them; the operating
/// system draws the decorations exactly for its own title bar. So the
/// custom bar and the bar-less window both follow `rounded_corners`.
pub proof fn rounded_corners_follow_the_settings(settings: SettingsView)
    ensures
        appearance_for(settings).rounded == (settings.rounded_corners && appearance_for(
            settings,
        ).title_bar != TitleBarMode::Windows),
        appearance_for(settings).title_bar != TitleBarMode::Windows ==> appearance_for(
            settings,
        ).rounded == settings.rounded_corners,
        appearance_for(settings).decorations == (appearance_for(settings).title_bar
            == TitleBarMode::Windows),
        appearance_for(settings).title_bar == title_bar_named(settings.title_bar),
        appearance_for(settings).palette == palette_named(settings.theme),
{
}

/// The defaults are the Frappé theme, the bundled font, the custom title
/// bar and rounded corners; a settings file that cannot be read or parsed
/// gives exactly these, with one warning naming the error, and a parsed
/// file is taken as it is, without a warning.
pub proof fn unusable_settings_give_the_defaults(source: SettingsSource)
    ensures
        default_settings().theme == "frappe"@,
        default_settings().font.len() == 0,
        default_settings().title_bar == "custom"@,
        default_settings().rounded_corners,
        source matches SettingsSource::Parsed(s) ==> loaded_settings(source).0 == s@
            && loaded_settings(source).1.len() == 0,
        source matches SettingsSource::Malformed(e) ==> loaded_settings(source).0
            == default_settings() && loaded_settings(source).1 == seq![
            "Could not parse settings.jsonc ("@ + e@ + "), using defaults"@,
        ],
        source matches SettingsSource::Unreadable(e) ==> loaded_settings(source).0
            == default_settings() && loaded_settings(source).1 == seq![
            "Could not read settings.jsonc ("@ + e@ + "), using defaults"@,
        ],
{
}

/// A settings file is written only where none exists, and then with the
/// default text.
pub proof fn defaults_are_written_only_to_a_missing_file(exists: bool)
    ensures
        exists ==> settings_to_create_for(exists) is None,
        !exists ==> settings_to_create_for(exists) == Some(DEFAULT_SETTINGS@),
{
}

/// A custom font that cannot be read is reported with its path and the
/// error, and the bundled font is used.
pub proof fn unreadable_font_is_reported(font: Seq<char>, error: Seq<char>)
    ensures
        font_warning(font, error) == "Could not load custom font '"@ + font + "' ("@ + error
            + "), using default font"@,
{
}

} // verus!
