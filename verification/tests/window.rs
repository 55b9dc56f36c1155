use cozymdt::theme::{Palette, Rgb};
use cozymdt::window::{title_bar_commands, title_button_look, ButtonFill, TitleBarEvents, WindowCommand};

fn events() -> TitleBarEvents {
    TitleBarEvents {
        drag_started: false,
        double_clicked: false,
        close_clicked: false,
        maximize_clicked: false,
        minimize_clicked: false,
        maximized: false,
    }
}

#[test]
fn buttons_have_no_background_until_hovered() {
    let p = Palette::frappe();
    let look = title_button_look(false, true, p.red, &p);
    assert_eq!(look.fill, None);
    assert_eq!(look.glyph, p.red);
}

#[test]
fn hovered_close_button_is_red_with_a_white_glyph() {
    let p = Palette::frappe();
    let look = title_button_look(true, true, p.red, &p);
    assert_eq!(look.fill, Some(ButtonFill::Solid(p.red)));
    assert_eq!(look.glyph, Rgb { r: 255, g: 255, b: 255 });
}

#[test]
fn other_hovered_buttons_get_a_faint_overlay() {
    let p = Palette::latte();
    let look = title_button_look(true, false, p.text, &p);
    assert_eq!(look.fill, Some(ButtonFill::Overlay { color: p.text, alpha: 30 }));
    assert_eq!(look.glyph, p.text);
}

#[test]
fn quiet_frame_sends_nothing() {
    assert!(title_bar_commands(events()).is_empty());
}

#[test]
fn double_click_toggles_maximisation() {
    let mut e = events();
    e.double_clicked = true;
    assert_eq!(title_bar_commands(e), vec![WindowCommand::Maximize(true)]);
    e.maximized = true;
    assert_eq!(title_bar_commands(e), vec![WindowCommand::Maximize(false)]);
}

#[test]
fn commands_come_in_order() {
    let e = TitleBarEvents {
        drag_started: true,
        double_clicked: false,
        close_clicked: true,
        maximize_clicked: true,
        minimize_clicked: true,
        maximized: true,
    };
    assert_eq!(
        title_bar_commands(e),
        vec![
            WindowCommand::StartDrag,
            WindowCommand::Close,
            WindowCommand::Maximize(false),
            WindowCommand::Minimize,
        ]
    );
}
