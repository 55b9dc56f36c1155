//! Colour palettes (the four Catppuccin flavours) and how a theme name
//! selects one.

use vstd::prelude::*;

use crate::text::{
    all_ascii, ascii_lowercase, ascii_lowercase_is_idempotent, lowercase_of, str_eq, to_lowercase,
};

verus! {

/// An opaque colour given by its red, green and blue components.
#[derive(Clone, Copy, Debug, PartialEq, Eq, Structural)]
pub struct Rgb {
    pub r: u8,
    pub g: u8,
    pub b: u8,
}

/// The colour with the given components.
pub open spec fn rgb(r: u8, g: u8, b: u8) -> Rgb {
    Rgb { r, g, b }
}

impl Rgb {
    /// The opaque colour with the given components.
    pub fn from_rgb(r: u8, g: u8, b: u8) -> (c: Rgb)
        ensures
            c == rgb(r, g, b),
    {
        Rgb { r, g, b }
    }
}

/// The colours the terminal draws with.
#[derive(Clone, Copy, Debug, PartialEq, Eq, Structural)]
pub struct Palette {
    pub base: Rgb,
    pub text: Rgb,
    pub subtext: Rgb,
    pub yellow: Rgb,
    pub red: Rgb,
    pub green: Rgb,
    pub blue: Rgb,
    pub lavender: Rgb,
}

/// The Latte flavour (light).
pub open spec fn latte_colors() -> Palette {
    Palette {
        base: rgb(239, 241, 245),
        text: rgb(76, 79, 105),
        subtext: rgb(92, 95, 119),
        yellow: rgb(223, 142, 29),
        red: rgb(210, 15, 57),
        green: rgb(64, 160, 43),
        blue: rgb(30, 102, 245),
        lavender: rgb(114, 135, 253),
    }
}

/// The Frappé flavour.
pub open spec fn frappe_colors() -> Palette {
    Palette {
        base: rgb(48, 52, 70),
        text: rgb(198, 208, 245),
        subtext: rgb(181, 191, 226),
        yellow: rgb(229, 200, 144),
        red: rgb(231, 130, 132),
        green: rgb(166, 209, 137),
        blue: rgb(140, 170, 238),
        lavender: rgb(186, 187, 241),
    }
}

/// The Macchiato flavour.
pub open spec fn macchiato_colors() -> Palette {
    Palette {
        base: rgb(36, 39, 58),
        text: rgb(202, 211, 245),
        subtext: rgb(184, 192, 224),
        yellow: rgb(238, 212, 159),
        red: rgb(237, 135, 150),
        green: rgb(166, 218, 149),
        blue: rgb(138, 173, 244),
        lavender: rgb(183, 189, 248),
    }
}

/// The Mocha flavour (darkest).
pub open spec fn mocha_colors() -> Palette {
    Palette {
        base: rgb(30, 30, 46),
        text: rgb(205, 214, 244),
        subtext: rgb(186, 194, 222),
        yellow: rgb(249, 226, 175),
        red: rgb(243, 139, 168),
        green: rgb(166, 227, 161),
        blue: rgb(137, 180, 250),
        lavender: rgb(180, 190, 254),
    }
}

/// The palette that an already lower-cased theme name selects: the three
/// other flavours by name, Frappé for anything else.
pub open spec fn palette_for_lowercase(lower: Seq<char>) -> Palette {
    if lower == "latte"@ {
        latte_colors()
    } else if lower == "macchiato"@ {
        macchiato_colors()
    } else if lower == "mocha"@ {
        mocha_colors()
    } else {
        frappe_colors()
    }
}

/// The palette that a theme name selects, case-insensitively.
pub open spec fn palette_named(name: Seq<char>) -> Palette {
    palette_for_lowercase(lowercase_of(name))
}

impl Palette {
    /// The Latte flavour.
    pub fn latte() -> (p: Palette)
        ensures
            p == latte_colors(),
    {
        Palette {
            base: Rgb::from_rgb(239, 241, 245),
            text: Rgb::from_rgb(76, 79, 105),
            subtext: Rgb::from_rgb(92, 95, 119),
            yellow: Rgb::from_rgb(223, 142, 29),
            red: Rgb::from_rgb(210, 15, 57),
            green: Rgb::from_rgb(64, 160, 43),
            blue: Rgb::from_rgb(30, 102, 245),
            lavender: Rgb::from_rgb(114, 135, 253),
        }
    }

    /// The Frappé flavour.
    pub fn frappe() -> (p: Palette)
        ensures
            p == frappe_colors(),
    {
        Palette {
            base: Rgb::from_rgb(48, 52, 70),
            text: Rgb::from_rgb(198, 208, 245),
            subtext: Rgb::from_rgb(181, 191, 226),
            yellow: Rgb::from_rgb(229, 200, 144),
            red: Rgb::from_rgb(231, 130, 132),
            green: Rgb::from_rgb(166, 209, 137),
            blue: Rgb::from_rgb(140, 170, 238),
            lavender: Rgb::from_rgb(186, 187, 241),
        }
    }

    /// The Macchiato flavour.
    pub fn macchiato() -> (p: Palette)
        ensures
            p == macchiato_colors(),
    {
        Palette {
            base: Rgb::from_rgb(36, 39, 58),
            text: Rgb::from_rgb(202, 211, 245),
            subtext: Rgb::from_rgb(184, 192, 224),
            yellow: Rgb::from_rgb(238, 212, 159),
            red: Rgb::from_rgb(237, 135, 150),
            green: Rgb::from_rgb(166, 218, 149),
            blue: Rgb::from_rgb(138, 173, 244),
            lavender: Rgb::from_rgb(183, 189, 248),
        }
    }

    /// The Mocha flavour.
    pub fn mocha() -> (p: Palette)
        ensures
            p == mocha_colors(),
    {
        Palette {
            base: Rgb::from_rgb(30, 30, 46),
            text: Rgb::from_rgb(205, 214, 244),
            subtext: Rgb::from_rgb(186, 194, 222),
            yellow: Rgb::from_rgb(249, 226, 175),
            red: Rgb::from_rgb(243, 139, 168),
            green: Rgb::from_rgb(166, 227, 161),
            blue: Rgb::from_rgb(137, 180, 250),
            lavender: Rgb::from_rgb(180, 190, 254),
        }
    }

    /// The palette for a theme name that is already in lower case.
    pub fn from_lowercase(lower: &str) -> (p: Palette)
        ensures
            p == palette_for_lowercase(lower@),
    {
        if str_eq(lower, "latte") {
            Palette::latte()
        } else if str_eq(lower, "macchiato") {
            Palette::macchiato()
        } else if str_eq(lower, "mocha") {
            Palette::mocha()
        } else {
            Palette::frappe()
        }
    }

    /// The palette a theme name selects, ignoring case; unknown or missing
    /// names fall back to Frappé.
    pub fn from_name(name: &str) -> (p: Palette)
        ensures
            p == palette_named(name@),
            all_ascii(name@) ==> p == palette_for_lowercase(ascii_lowercase(name@)),
    {
        let lower = to_lowercase(name);
        Palette::from_lowercase(lower.as_str())
    }
}

/// Every theme name whose lower-case form is none of "latte", "macchiato"
/// and "mocha" selects the Frappé palette.
pub proof fn unknown_theme_falls_back_to_frappe(name: Seq<char>)
    requires
        lowercase_of(name) != "latte"@,
        lowercase_of(name) != "macchiato"@,
        lowercase_of(name) != "mocha"@,
    ensures
        palette_named(name) == frappe_colors(),
{
}

/// Two theme names that differ only in case select the same palette.
pub proof fn theme_names_ignore_case(a: Seq<char>, b: Seq<char>)
    requires
        lowercase_of(a) == lowercase_of(b),
    ensures
        palette_named(a) == palette_named(b),
{
}

/// For ASCII theme names, case does not matter: names that agree once
/// their capitals are made small select the same palette.
pub proof fn ascii_theme_names_ignore_case(a: Seq<char>, b: Seq<char>)
    requires
        all_ascii(a),
        all_ascii(b),
        ascii_lowercase(a) == ascii_lowercase(b),
    ensures
        palette_for_lowercase(ascii_lowercase(a)) == palette_for_lowercase(ascii_lowercase(b)),
{
}

/// An ASCII theme name and its lower-case form select the same palette:
/// the lower-case form is ASCII again, and lower-casing it changes nothing.
pub proof fn lowercased_theme_name_selects_the_same(name: Seq<char>)
    requires
        all_ascii(name),
    ensures
        all_ascii(ascii_lowercase(name)),
        palette_for_lowercase(ascii_lowercase(ascii_lowercase(name))) == palette_for_lowercase(
            ascii_lowercase(name),
        ),
{
    ascii_lowercase_is_idempotent(name);
}

/// The colour of a command's first word: green for `exit`, which closes
/// the terminal, yellow for every other word.
pub open spec fn first_word_tone(word: Seq<char>, palette: Palette) -> Rgb {
    if word == "exit"@ {
        palette.green
    } else {
        palette.yellow
    }
}

/// The colour of a command's first word.
pub fn first_word_color(word: &str, palette: &Palette) -> (c: Rgb)
    ensures
        c == first_word_tone(word@, *palette),
{
    if str_eq(word, "exit") {
        palette.green
    } else {
        palette.yellow
    }
}

/// The sum of a colour's components, a rough measure of how light it is.
pub open spec fn lightness(c: Rgb) -> int {
    c.r + c.g + c.b
}

/// The flavours carry Catppuccin's published colours: each theme name
/// selects a palette with exactly these components.
pub proof fn flavours_have_catppuccin_colours()
    ensures
        palette_for_lowercase("latte"@) == (Palette {
            base: Rgb { r: 239, g: 241, b: 245 },
            text: Rgb { r: 76, g: 79, b: 105 },
            subtext: Rgb { r: 92, g: 95, b: 119 },
            yellow: Rgb { r: 223, g: 142, b: 29 },
            red: Rgb { r: 210, g: 15, b: 57 },
            green: Rgb { r: 64, g: 160, b: 43 },
            blue: Rgb { r: 30, g: 102, b: 245 },
            lavender: Rgb { r: 114, g: 135, b: 253 },
        }),
        palette_for_lowercase("frappe"@) == (Palette {
            base: Rgb { r: 48, g: 52, b: 70 },
            text: Rgb { r: 198, g: 208, b: 245 },
            subtext: Rgb { r: 181, g: 191, b: 226 },
            yellow: Rgb { r: 229, g: 200, b: 144 },
            red: Rgb { r: 231, g: 130, b: 132 },
            green: Rgb { r: 166, g: 209, b: 137 },
            blue: Rgb { r: 140, g: 170, b: 238 },
            lavender: Rgb { r: 186, g: 187, b: 241 },
        }),
        palette_for_lowercase("macchiato"@) == (Palette {
            base: Rgb { r: 36, g: 39, b: 58 },
            text: Rgb { r: 202, g: 211, b: 245 },
            subtext: Rgb { r: 184, g: 192, b: 224 },
            yellow: Rgb { r: 238, g: 212, b: 159 },
            red: Rgb { r: 237, g: 135, b: 150 },
            green: Rgb { r: 166, g: 218, b: 149 },
            blue: Rgb { r: 138, g: 173, b: 244 },
            lavender: Rgb { r: 183, g: 189, b: 248 },
        }),
        palette_for_lowercase("mocha"@) == (Palette {
            base: Rgb { r: 30, g: 30, b: 46 },
            text: Rgb { r: 205, g: 214, b: 244 },
            subtext: Rgb { r: 186, g: 194, b: 222 },
            yellow: Rgb { r: 249, g: 226, b: 175 },
            red: Rgb { r: 243, g: 139, b: 168 },
            green: Rgb { r: 166, g: 227, b: 161 },
            blue: Rgb { r: 137, g: 180, b: 250 },
            lavender: Rgb { r: 180, g: 190, b: 254 },
        }),
{
    reveal_strlit("latte");
    reveal_strlit("frappe");
    reveal_strlit("macchiato");
    reveal_strlit("mocha");
    assert("frappe"@.len() != "latte"@.len() && "frappe"@.len() != "macchiato"@.len());
    assert("frappe"@[0] != "mocha"@[0]);
    assert("macchiato"@.len() != "latte"@.len());
    assert("mocha"@[0] != "latte"@[0] && "mocha"@.len() != "macchiato"@.len());
}

/// Latte is the light flavour, with a background lighter than its text;
/// every other palette, the fallback included, is dark, with text lighter
/// than its background.
pub proof fn only_latte_is_light(lower: Seq<char>)
    ensures
        lower == "latte"@ ==> lightness(palette_for_lowercase(lower).base) > lightness(
            palette_for_lowercase(lower).text,
        ),
        lower != "latte"@ ==> lightness(palette_for_lowercase(lower).base) < lightness(
            palette_for_lowercase(lower).text,
        ),
{
}

/// `exit`, which closes the terminal, is the one word coloured green; every
/// other first word is yellow.
pub proof fn exit_alone_is_green(word: Seq<char>, palette: Palette)
    ensures
        word == "exit"@ ==> first_word_tone(word, palette) == palette.green,
        word != "exit"@ ==> first_word_tone(word, palette) == palette.yellow,
{
}

} // verus!
