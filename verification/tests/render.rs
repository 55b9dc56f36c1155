use cozymdt::render::{input_segments, line_segments, Segment};
use cozymdt::terminal::HistoryLine;
use cozymdt::theme::{Palette, Rgb};

fn seg(text: &str, color: Rgb) -> Segment {
    Segment { text: text.to_string(), color }
}

#[test]
fn typed_line_colours_its_first_word() {
    let p = Palette::frappe();
    assert_eq!(input_segments("exit now", &p), vec![seg("exit", p.green), seg(" now", p.text)]);
    assert_eq!(input_segments("dir", &p), vec![seg("dir", p.yellow)]);
    assert_eq!(input_segments(" x", &p), vec![seg(" x", p.text)]);
    assert!(input_segments("", &p).is_empty());
}

#[test]
fn typed_line_pieces_rebuild_it() {
    let p = Palette::latte();
    for s in ["a b c", "  lead", "trail ", "", "one"] {
        let joined: String = input_segments(s, &p).into_iter().map(|x| x.text).collect();
        assert_eq!(joined, s);
    }
}

#[test]
fn history_lines_are_coloured_by_kind() {
    let p = Palette::mocha();
    assert_eq!(line_segments(&HistoryLine::Banner("b".to_string()), &p), vec![seg("b", p.lavender)]);
    assert_eq!(line_segments(&HistoryLine::Error("e".to_string()), &p), vec![seg("e", p.red)]);
    assert_eq!(line_segments(&HistoryLine::Info("i".to_string()), &p), vec![seg("i", p.blue)]);
    assert_eq!(line_segments(&HistoryLine::Output("o".to_string()), &p), vec![seg("o", p.text)]);
    assert_eq!(
        line_segments(&HistoryLine::Output("User interruption: CTRL+C".to_string()), &p),
        vec![seg("User interruption: CTRL+C", p.red)]
    );
}

#[test]
fn commands_show_prompt_word_and_rest() {
    let p = Palette::frappe();
    let line = HistoryLine::Command { prompt: "C:\\ [cmd]> ".to_string(), input: "echo hi".to_string() };
    assert_eq!(
        line_segments(&line, &p),
        vec![seg("C:\\ [cmd]> ", p.subtext), seg("echo", p.yellow), seg(" hi", p.text)]
    );
    let empty = HistoryLine::Command { prompt: "> ".to_string(), input: String::new() };
    assert_eq!(line_segments(&empty, &p), vec![seg("> ", p.subtext), seg("", p.yellow)]);
}

#[test]
fn command_pieces_rebuild_prompt_and_input() {
    let p = Palette::macchiato();
    for input in ["git commit -m x", "", " lead", "solo"] {
        let line = HistoryLine::Command { prompt: "~ [bash]> ".to_string(), input: input.to_string() };
        let joined: String = line_segments(&line, &p).into_iter().map(|x| x.text).collect();
        assert_eq!(joined, format!("~ [bash]> {}", input));
    }
}
