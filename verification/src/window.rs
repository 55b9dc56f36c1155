//! The terminal's own title bar: how its buttons look and what the user's
//! clicks on it ask of the window.

use vstd::prelude::*;

use crate::theme::{rgb, Palette, Rgb};

verus! {

/// The background behind a hovered title-bar button.
#[derive(Clone, Copy, Debug, PartialEq, Eq, Structural)]
pub enum ButtonFill {
    /// An opaque colour.
    Solid(Rgb),
    /// A colour laid over the bar with the given opacity out of 255.
    Overlay { color: Rgb, alpha: u8 },
}

/// How a title-bar button is drawn.
#[derive(Clone, Copy, Debug, PartialEq, Eq, Structural)]
pub struct ButtonLook {
    /// The background, if any.
    pub fill: Option<ButtonFill>,
    /// The colour of the button's symbol.
    pub glyph: Rgb,
}

/// No background until hovered; then solid red behind the close button and
/// a faint overlay of the text colour behind the others. The close button's
/// symbol turns white on hover; otherwise it keeps `color`.
pub open spec fn button_look_for(hovered: bool, is_close: bool, color: Rgb, palette: Palette) -> ButtonLook {
    ButtonLook {
        fill: if !hovered {
            None
        } else if is_close {
            Some(ButtonFill::Solid(palette.red))
        } else {
            Some(ButtonFill::Overlay { color: palette.text, alpha: 30 })
        },
        glyph: if hovered && is_close {
            rgb(255, 255, 255)
        } else {
            color
        },
    }
}

/// How a title-bar button drawn in `color` looks.
pub fn title_button_look(hovered: bool, is_close: bool, color: Rgb, palette: &Palette) -> (look: ButtonLook)
    ensures
        look == button_look_for(hovered, is_close, color, *palette),
{
    let fill = if !hovered {
        None
    } else if is_close {
        Some(ButtonFill::Solid(palette.red))
    } else {
        Some(ButtonFill::Overlay { color: palette.text, alpha: 30 })
    };
    let glyph = if hovered && is_close {
        Rgb::from_rgb(255, 255, 255)
    } else {
        color
    };
    ButtonLook { fill, glyph }
}

/// What happened on the title bar in one frame.
#[derive(Clone, Copy, Debug, PartialEq, Eq, Structural)]
pub struct TitleBarEvents {
    pub drag_started: bool,
    pub double_clicked: bool,
    pub close_clicked: bool,
    pub maximize_clicked: bool,
    pub minimize_clicked: bool,
    /// Whether the window is maximised now.
    pub maximized: bool,
}

/// A command to the window.
#[derive(Clone, Copy, Debug, PartialEq, Eq, Structural)]
pub enum WindowCommand {
    /// Follow the pointer until the button is released.
    StartDrag,
    /// Maximise (`true`) or restore (`false`).
    Maximize(bool),
    /// Minimise.
    Minimize,
    /// Close the window.
    Close,
}

/// The commands, in order: dragging the bar moves the window, a double
/// click or the maximise button toggles maximisation, and the close and
/// minimise buttons do what they say.
pub open spec fn title_bar_commands_for(e: TitleBarEvents) -> Seq<WindowCommand> {
    (if e.drag_started {
        seq![WindowCommand::StartDrag]
    } else {
        Seq::empty()
    }) + (if e.double_clicked {
        seq![WindowCommand::Maximize(!e.maximized)]
    } else {
        Seq::empty()
    }) + (if e.close_clicked {
        seq![WindowCommand::Close]
    } else {
        Seq::empty()
    }) + (if e.maximize_clicked {
        seq![WindowCommand::Maximize(!e.maximized)]
    } else {
        Seq::empty()
    }) + (if e.minimize_clicked {
        seq![WindowCommand::Minimize]
    } else {
        Seq::empty()
    })
}

/// The commands that one frame's title-bar events ask of the window.
pub fn title_bar_commands(e: TitleBarEvents) -> (cmds: Vec<WindowCommand>)
    ensures
        cmds@ == title_bar_commands_for(e),
{
    let mut cmds: Vec<WindowCommand> = Vec::new();
    if e.drag_started {
        cmds.push(WindowCommand::StartDrag);
    }
    if e.double_clicked {
        cmds.push(WindowCommand::Maximize(!e.maximized));
    }
    if e.close_clicked {
        cmds.push(WindowCommand::Close);
    }
    if e.maximize_clicked {
        cmds.push(WindowCommand::Maximize(!e.maximized));
    }
    if e.minimize_clicked {
        cmds.push(WindowCommand::Minimize);
    }
    assert(cmds@ =~= title_bar_commands_for(e));
    cmds
}

/// A command occurs in two lists one after the other exactly when it
/// occurs in one of them.
proof fn lemma_concat_contains<A>(a: Seq<A>, b: Seq<A>, x: A)
    ensures
        (a + b).contains(x) <==> a.contains(x) || b.contains(x),
{
    if (a + b).contains(x) {
        let i = choose|i: int| 0 <= i < (a + b).len() && (a + b)[i] == x;
        if i < a.len() {
            assert(a[i] == x);
        } else {
            assert(b[i - a.len()] == x);
        }
    }
    if a.contains(x) {
        let i = choose|i: int| 0 <= i < a.len() && a[i] == x;
        assert((a + b)[i] == x);
    }
    if b.contains(x) {
        let i = choose|i: int| 0 <= i < b.len() && b[i] == x;
        assert((a + b)[a.len() + i] == x);
    }
}

/// The list `seq![c]` where `on`, else nothing.
spec fn only_if(on: bool, c: WindowCommand) -> Seq<WindowCommand> {
    if on {
        seq![c]
    } else {
        Seq::empty()
    }
}

proof fn lemma_only_if_contains(on: bool, c: WindowCommand, x: WindowCommand)
    ensures
        only_if(on, c).contains(x) <==> on && x == c,
{
    if on {
        assert(only_if(on, c)[0] == c);
    }
}

/// Each click on the title bar asks for what it stands for, and for nothing
/// else: dragging starts a window drag, the close and minimise buttons
/// close and minimise, and both a double click and the maximise button
/// toggle maximisation, asking for the state the window is not in; a
/// command that would keep the window as it is never occurs.
pub proof fn title_bar_clicks_do_what_they_say(e: TitleBarEvents)
    ensures
        title_bar_commands_for(e).contains(WindowCommand::StartDrag) <==> e.drag_started,
        title_bar_commands_for(e).contains(WindowCommand::Close) <==> e.close_clicked,
        title_bar_commands_for(e).contains(WindowCommand::Minimize) <==> e.minimize_clicked,
        title_bar_commands_for(e).contains(WindowCommand::Maximize(!e.maximized)) <==> (
        e.double_clicked || e.maximize_clicked),
        !title_bar_commands_for(e).contains(WindowCommand::Maximize(e.maximized)),
        title_bar_commands_for(e).len() == (if e.drag_started {
            1int
        } else {
            0
        }) + (if e.double_clicked {
            1int
        } else {
            0
        }) + (if e.close_clicked {
            1int
        } else {
            0
        }) + (if e.maximize_clicked {
            1int
        } else {
            0
        }) + (if e.minimize_clicked {
            1int
        } else {
            0
        }),
{
    let a = only_if(e.drag_started, WindowCommand::StartDrag);
    let b = only_if(e.double_clicked, WindowCommand::Maximize(!e.maximized));
    let c = only_if(e.close_clicked, WindowCommand::Close);
    let d = only_if(e.maximize_clicked, WindowCommand::Maximize(!e.maximized));
    let f = only_if(e.minimize_clicked, WindowCommand::Minimize);
    assert(title_bar_commands_for(e) =~= a + b + c + d + f);
    assert forall|x: WindowCommand| title_bar_commands_for(e).contains(x) <==> (a.contains(x)
        || b.contains(x) || c.contains(x) || d.contains(x) || f.contains(x)) by {
        lemma_concat_contains(a + b + c + d, f, x);
        lemma_concat_contains(a + b + c, d, x);
        lemma_concat_contains(a + b, c, x);
        lemma_concat_contains(a, b, x);
    }
    assert forall|x: WindowCommand| #![auto]
        (a.contains(x) <==> e.drag_started && x == WindowCommand::StartDrag) && (b.contains(x)
            <==> e.double_clicked && x == WindowCommand::Maximize(!e.maximized)) && (c.contains(x)
            <==> e.close_clicked && x == WindowCommand::Close) && (d.contains(x)
            <==> e.maximize_clicked && x == WindowCommand::Maximize(!e.maximized)) && (f.contains(x)
            <==> e.minimize_clicked && x == WindowCommand::Minimize) by {
        lemma_only_if_contains(e.drag_started, WindowCommand::StartDrag, x);
        lemma_only_if_contains(e.double_clicked, WindowCommand::Maximize(!e.maximized), x);
        lemma_only_if_contains(e.close_clicked, WindowCommand::Close, x);
        lemma_only_if_contains(e.maximize_clicked, WindowCommand::Maximize(!e.maximized), x);
        lemma_only_if_contains(e.minimize_clicked, WindowCommand::Minimize, x);
    }
    let x0 = WindowCommand::StartDrag;
    let x1 = WindowCommand::Close;
    let x2 = WindowCommand::Minimize;
    let x3 = WindowCommand::Maximize(!e.maximized);
    let x4 = WindowCommand::Maximize(e.maximized);
    assert(a.contains(x0) <==> e.drag_started && x0 == WindowCommand::StartDrag);
    assert(title_bar_commands_for(e).contains(x0) <==> (a.contains(x0) || b.contains(x0)
        || c.contains(x0) || d.contains(x0) || f.contains(x0)));
    assert(title_bar_commands_for(e).contains(x1) <==> (a.contains(x1) || b.contains(x1)
        || c.contains(x1) || d.contains(x1) || f.contains(x1)));
    assert(title_bar_commands_for(e).contains(x2) <==> (a.contains(x2) || b.contains(x2)
        || c.contains(x2) || d.contains(x2) || f.contains(x2)));
    assert(title_bar_commands_for(e).contains(x3) <==> (a.contains(x3) || b.contains(x3)
        || c.contains(x3) || d.contains(x3) || f.contains(x3)));
    assert(title_bar_commands_for(e).contains(x4) <==> (a.contains(x4) || b.contains(x4)
        || c.contains(x4) || d.contains(x4) || f.contains(x4)));
}

/// A button has no background until the pointer is over it and keeps its
/// colour; hovered, the close button turns solid red with a white symbol,
/// and any other button gets a faint overlay of the text colour.
pub proof fn title_buttons_light_up_on_hover(hovered: bool, is_close: bool, color: Rgb, palette: Palette)
    ensures
        !hovered ==> button_look_for(hovered, is_close, color, palette).fill is None
            && button_look_for(hovered, is_close, color, palette).glyph == color,
        hovered && is_close ==> button_look_for(hovered, is_close, color, palette).fill == Some(
            ButtonFill::Solid(palette.red),
        ) && button_look_for(hovered, is_close, color, palette).glyph == (Rgb { r: 255, g: 255, b: 255 }),
        hovered && !is_close ==> button_look_for(hovered, is_close, color, palette).fill == Some(
            ButtonFill::Overlay { color: palette.text, alpha: 30 },
        ) && button_look_for(hovered, is_close, color, palette).glyph == color,
{
}

} // verus!
