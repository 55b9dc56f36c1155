use cozymdt::theme::{first_word_color, Palette, Rgb};

#[test]
fn latte_colors_are_exact() {
    let p = Palette::latte();
    assert_eq!(p.base, Rgb { r: 239, g: 241, b: 245 });
    assert_eq!(p.text, Rgb { r: 76, g: 79, b: 105 });
    assert_eq!(p.lavender, Rgb { r: 114, g: 135, b: 253 });
}

#[test]
fn frappe_colors_are_exact() {
    let p = Palette::frappe();
    assert_eq!(p.base, Rgb { r: 48, g: 52, b: 70 });
    assert_eq!(p.green, Rgb { r: 166, g: 209, b: 137 });
    assert_eq!(p.yellow, Rgb { r: 229, g: 200, b: 144 });
}

#[test]
fn macchiato_and_mocha_colors_are_exact() {
    assert_eq!(Palette::macchiato().red, Rgb { r: 237, g: 135, b: 150 });
    assert_eq!(Palette::mocha().base, Rgb { r: 30, g: 30, b: 46 });
    assert_eq!(Palette::mocha().blue, Rgb { r: 137, g: 180, b: 250 });
}

#[test]
fn from_name_selects_each_flavour() {
    assert_eq!(Palette::from_name("latte"), Palette::latte());
    assert_eq!(Palette::from_name("macchiato"), Palette::macchiato());
    assert_eq!(Palette::from_name("mocha"), Palette::mocha());
    assert_eq!(Palette::from_name("frappe"), Palette::frappe());
}

#[test]
fn from_name_ignores_case() {
    assert_eq!(Palette::from_name("LATTE"), Palette::latte());
    assert_eq!(Palette::from_name("MoChA"), Palette::mocha());
    assert_eq!(Palette::from_name("Macchiato"), Palette::macchiato());
}

#[test]
fn unknown_or_missing_theme_falls_back_to_frappe() {
    assert_eq!(Palette::from_name(""), Palette::frappe());
    assert_eq!(Palette::from_name("solarized"), Palette::frappe());
    assert_eq!(Palette::from_name(" latte"), Palette::frappe());
    assert_eq!(Palette::from_name("frappé"), Palette::frappe());
}

#[test]
fn from_lowercase_is_case_sensitive() {
    assert_eq!(Palette::from_lowercase("latte"), Palette::latte());
    assert_eq!(Palette::from_lowercase("Latte"), Palette::frappe());
}

#[test]
fn exit_is_green_and_other_words_yellow() {
    let p = Palette::mocha();
    assert_eq!(first_word_color("exit", &p), p.green);
    assert_eq!(first_word_color("dir", &p), p.yellow);
    assert_eq!(first_word_color("EXIT", &p), p.yellow);
    assert_eq!(first_word_color("", &p), p.yellow);
}

#[test]
fn a_name_and_its_lower_case_form_select_the_same() {
    for name in ["LATTE", "Mocha", "MACCHIATO", "Frappe", "Other"] {
        assert_eq!(Palette::from_name(name), Palette::from_name(&name.to_lowercase()));
    }
}
