//! How history lines and the input line are coloured: each becomes a list
//! of coloured pieces of text that the front end draws side by side.

use vstd::prelude::*;

use crate::terminal::{interruption_notice, HistoryLine, Line};
use crate::text::{contains, occurs_in, space_split, space_split_rebuilds, split_first_word};
use crate::theme::{first_word_color, first_word_tone, Palette, Rgb};

verus! {

/// A piece of text drawn in one colour.
#[derive(Clone, Debug, PartialEq, Eq)]
pub struct Segment {
    pub text: String,
    pub color: Rgb,
}

impl View for Segment {
    type V = (Seq<char>, Rgb);

    open spec fn view(&self) -> (Seq<char>, Rgb) {
        (self.text@, self.color)
    }
}

/// The values of a list of segments.
pub open spec fn segment_views(v: Seq<Segment>) -> Seq<(Seq<char>, Rgb)> {
    v.map_values(|s: Segment| s@)
}

/// The text of a list of segments, read left to right.
pub open spec fn joined(v: Seq<(Seq<char>, Rgb)>) -> Seq<char>
    decreases v.len(),
{
    if v.len() == 0 {
        Seq::empty()
    } else {
        joined(v.drop_last()) + v.last().0
    }
}

/// The part after a command's first word, shown after a space in the
/// ordinary text colour.
pub open spec fn rest_segments(rest: Option<Seq<char>>, palette: Palette) -> Seq<(Seq<char>, Rgb)> {
    match rest {
        Some(r) => seq![(seq![' '] + r, palette.text)],
        None => Seq::empty(),
    }
}

/// The line being typed: its first word coloured as a command (left out
/// when empty), then the rest.
pub open spec fn input_segments_for(text: Seq<char>, palette: Palette) -> Seq<(Seq<char>, Rgb)> {
    let (first, rest) = space_split(text);
    (if first.len() > 0 {
        seq![(first, first_word_tone(first, palette))]
    } else {
        Seq::empty()
    }) + rest_segments(rest, palette)
}

/// A history line: the banner in lavender, output in the text colour (red
/// when it reports an interruption), errors in red, information in blue,
/// and a command as its prompt, its first word and the rest.
pub open spec fn line_segments_for(line: Line, palette: Palette) -> Seq<(Seq<char>, Rgb)> {
    match line {
        Line::Banner(t) => seq![(t, palette.lavender)],
        Line::Output(t) => seq![
            (t, if occurs_in(t, interruption_notice()) {
                palette.red
            } else {
                palette.text
            }),
        ],
        Line::Error(t) => seq![(t, palette.red)],
        Line::Info(t) => seq![(t, palette.blue)],
        Line::Command { prompt, input } => {
            let (first, rest) = space_split(input);
            seq![(prompt, palette.subtext), (first, first_word_tone(first, palette))]
                + rest_segments(rest, palette)
        },
    }
}

/// A segment of `text` in `color`.
fn segment(text: &str, color: Rgb) -> (s: Segment)
    ensures
        s@ == (text@, color),
{
    Segment { text: text.to_owned(), color }
}

/// Adds the part after the first word, if any, to `out`.
fn push_rest(out: &mut Vec<Segment>, rest: Option<&str>, palette: &Palette)
    ensures
        segment_views(final(out)@) == segment_views(old(out)@) + rest_segments(
            match rest {
                Some(r) => Some(r@),
                None => None,
            },
            *palette,
        ),
{
    let ghost before = out@;
    match rest {
        Some(r) => {
            let mut t = " ".to_owned();
            t.append(r);
            proof {
                reveal_strlit(" ");
            }
            assert(t@ =~= seq![' '] + r@);
            out.push(segment(t.as_str(), palette.text));
            assert(segment_views(out@) =~= segment_views(before).push((seq![' '] + r@, palette.text)));
        },
        None => {
            assert(segment_views(out@) =~= segment_views(before));
        },
    }
}

/// The coloured pieces of the line being typed.
pub fn input_segments(text: &str, palette: &Palette) -> (res: Vec<Segment>)
    ensures
        segment_views(res@) == input_segments_for(text@, *palette),
{
    let (first, rest) = split_first_word(text);
    let mut out: Vec<Segment> = Vec::new();
    if !first.is_empty() {
        out.push(segment(first, first_word_color(first, palette)));
    }
    assert(segment_views(out@) =~= if first@.len() > 0 {
        seq![(first@, first_word_tone(first@, *palette))]
    } else {
        Seq::empty()
    });
    push_rest(&mut out, rest, palette);
    out
}

/// The coloured pieces of a history line.
pub fn line_segments(line: &HistoryLine, palette: &Palette) -> (res: Vec<Segment>)
    ensures
        segment_views(res@) == line_segments_for(line@, *palette),
{
    let mut out: Vec<Segment> = Vec::new();
    match line {
        HistoryLine::Banner(t) => {
            out.push(segment(t.as_str(), palette.lavender));
        },
        HistoryLine::Output(t) => {
            let color = if contains(t.as_str(), "User interruption: CTRL+C") {
                palette.red
            } else {
                palette.text
            };
            out.push(segment(t.as_str(), color));
        },
        HistoryLine::Error(t) => {
            out.push(segment(t.as_str(), palette.red));
        },
        HistoryLine::Info(t) => {
            out.push(segment(t.as_str(), palette.blue));
        },
        HistoryLine::Command { prompt, input } => {
            let (first, rest) = split_first_word(input.as_str());
            out.push(segment(prompt.as_str(), palette.subtext));
            out.push(segment(first, first_word_color(first, palette)));
            push_rest(&mut out, rest, palette);
        },
    }
    assert(segment_views(out@) =~= line_segments_for(line@, *palette));
    out
}

/// The text of the segments after `extra` is the text before and that of
/// `extra`.
proof fn lemma_joined_append(v: Seq<(Seq<char>, Rgb)>, extra: Seq<(Seq<char>, Rgb)>)
    ensures
        joined(v + extra) == joined(v) + joined(extra),
    decreases extra.len(),
{
    if extra.len() == 0 {
        assert(v + extra =~= v);
        assert(joined(v) + Seq::<char>::empty() =~= joined(v));
    } else {
        lemma_joined_append(v, extra.drop_last());
        assert((v + extra).drop_last() =~= v + extra.drop_last());
        assert(joined(v) + joined(extra.drop_last()) + extra.last().0 =~= joined(v) + (joined(
            extra.drop_last(),
        ) + extra.last().0));
    }
}

/// Colouring the line being typed shows exactly its text: the pieces read
/// left to right give it back.
pub proof fn input_colouring_keeps_text(text: Seq<char>, palette: Palette)
    ensures
        joined(input_segments_for(text, palette)) == text,
{
    space_split_rebuilds(text);
    let (first, rest) = space_split(text);
    let head: Seq<(Seq<char>, Rgb)> = if first.len() > 0 {
        seq![(first, first_word_tone(first, palette))]
    } else {
        Seq::empty()
    };
    lemma_joined_append(head, rest_segments(rest, palette));
    assert(joined(head) =~= first) by {
        reveal_with_fuel(joined, 2);
        if first.len() > 0 {
            assert(head.drop_last() =~= Seq::<(Seq<char>, Rgb)>::empty());
            assert(Seq::<char>::empty() + first =~= first);
        }
    }
    match rest {
        Some(r) => {
            let tail = rest_segments(rest, palette);
            assert(tail.drop_last() =~= Seq::<(Seq<char>, Rgb)>::empty());
            assert(joined(tail) =~= seq![' '] + r) by {
                reveal_with_fuel(joined, 2);
            }
            assert(first + (seq![' '] + r) =~= text);
        },
        None => {
            assert(joined(rest_segments(rest, palette)) =~= Seq::<char>::empty());
            assert(first + Seq::<char>::empty() =~= text);
        },
    }
}

/// A command in the history is shown as its prompt followed by exactly the
/// command's text.
pub proof fn command_colouring_keeps_text(prompt: Seq<char>, input: Seq<char>, palette: Palette)
    ensures
        joined(line_segments_for(Line::Command { prompt, input }, palette)) == prompt + input,
{
    space_split_rebuilds(input);
    let (first, rest) = space_split(input);
    let head = seq![(prompt, palette.subtext), (first, first_word_tone(first, palette))];
    lemma_joined_append(head, rest_segments(rest, palette));
    assert(head.drop_last().drop_last() =~= Seq::<(Seq<char>, Rgb)>::empty());
    assert(joined(head) =~= prompt + first) by {
        reveal_with_fuel(joined, 3);
        assert(head.drop_last() =~= seq![(prompt, palette.subtext)]);
    }
    match rest {
        Some(r) => {
            let tail = rest_segments(rest, palette);
            assert(tail.drop_last() =~= Seq::<(Seq<char>, Rgb)>::empty());
            assert(joined(tail) =~= seq![' '] + r) by {
                reveal_with_fuel(joined, 2);
            }
            assert(prompt + first + (seq![' '] + r) =~= prompt + input);
        },
        None => {
            assert(joined(rest_segments(rest, palette)) =~= Seq::<char>::empty());
            assert(prompt + first + Seq::<char>::empty() =~= prompt + input);
        },
    }
}

/// Each kind of history line has its colour: the banner lavender, errors
/// red, information blue, output in the text colour unless it reports an
/// interruption, which is red; a command shows its prompt in the subtext
/// colour, its first word green if it is `exit` and yellow otherwise, and
/// the rest in the text colour.
pub proof fn history_lines_are_coloured_by_kind(line: Line, palette: Palette)
    ensures
        line matches Line::Banner(t) ==> line_segments_for(line, palette) == seq![(t, palette.lavender)],
        line matches Line::Error(t) ==> line_segments_for(line, palette) == seq![(t, palette.red)],
        line matches Line::Info(t) ==> line_segments_for(line, palette) == seq![(t, palette.blue)],
        line matches Line::Output(t) ==> line_segments_for(line, palette) == seq![
            (t, if occurs_in(t, "User interruption: CTRL+C"@) {
                palette.red
            } else {
                palette.text
            }),
        ],
        line matches Line::Command { prompt, input } ==> {
            let segs = line_segments_for(line, palette);
            let first = space_split(input).0;
            &&& segs[0] == (prompt, palette.subtext)
            &&& segs[1].0 == first
            &&& first == "exit"@ ==> segs[1].1 == palette.green
            &&& first != "exit"@ ==> segs[1].1 == palette.yellow
            &&& forall|i: int| 2 <= i < segs.len() ==> segs[i].1 == palette.text
        },
{
}

/// The first word of the line being typed is coloured as a command (green
/// for `exit`, yellow otherwise) and the rest in the text colour.
pub proof fn typed_first_word_is_coloured(text: Seq<char>, palette: Palette)
    ensures
        space_split(text).0.len() > 0 ==> input_segments_for(text, palette)[0] == (
            space_split(text).0,
            if space_split(text).0 == "exit"@ {
                palette.green
            } else {
                palette.yellow
            },
        ),
        forall|i: int|
            #![trigger input_segments_for(text, palette)[i]]
            (if space_split(text).0.len() > 0 {
                1int
            } else {
                0
            }) <= i < input_segments_for(text, palette).len() ==> input_segments_for(text, palette)[i].1
                == palette.text,
{
}

} // verus!
