//! The terminal session: its history, the current shell and directory, and
//! the state machine that turns typed commands into work for the front end.
//!
//! The session never touches the file system, the environment or other
//! processes itself. Each step returns a `Request`; the front end performs
//! it and hands the outcome back as a `Reply` to `resume`, until the
//! request is `Idle` or `Run` (whose output comes back through
//! `receive_output`).

use vstd::prelude::*;

use crate::paths::{strip_unc_prefix, unc_stripped, DirPath, DirPathView};
use crate::settings::{settings_to_create, settings_to_create_for, texts, TitleBarMode, DEFAULT_SETTINGS};
use crate::shell::{is_bash_choice, shell_flag, shell_for_switch, shell_name, Shell};
use crate::text::{lowercase_of, str_eq, strip_prefix, starts_with, to_lowercase, trim, trimmed};

verus! {

/// One line of the terminal's history.
#[derive(Clone, Debug, PartialEq, Eq)]
pub enum HistoryLine {
    /// The welcome banner.
    Banner(String),
    /// A command as it was entered, with the prompt it was entered at.
    Command { prompt: String, input: String },
    /// Output of a command.
    Output(String),
    /// An error message.
    Error(String),
    /// An informational message.
    Info(String),
}

/// A history line as values.
pub enum Line {
    Banner(Seq<char>),
    Command { prompt: Seq<char>, input: Seq<char> },
    Output(Seq<char>),
    Error(Seq<char>),
    Info(Seq<char>),
}

impl View for HistoryLine {
    type V = Line;

    open spec fn view(&self) -> Line {
        match self {
            HistoryLine::Banner(t) => Line::Banner(t@),
            HistoryLine::Command { prompt, input } => Line::Command { prompt: prompt@, input: input@ },
            HistoryLine::Output(t) => Line::Output(t@),
            HistoryLine::Error(t) => Line::Error(t@),
            HistoryLine::Info(t) => Line::Info(t@),
        }
    }
}

/// The values of a list of history lines.
pub open spec fn lines(v: Seq<HistoryLine>) -> Seq<Line> {
    v.map_values(|l: HistoryLine| l@)
}

/// A unit of outside work that the session asks the front end to do.
#[derive(Clone, Debug, PartialEq, Eq)]
pub enum Request {
    /// Nothing more to do for this command.
    Idle,
    /// Look up the user's home directory; reply with `HomeLocated`.
    LocateHome,
    /// Canonicalise `base` (the current directory where it is `None`)
    /// joined with `relative`, or `base` alone; reply with `Resolved`,
    /// handing back `target`, the directory as typed.
    Resolve { base: Option<DirPath>, relative: Option<String>, target: String },
    /// Find the settings file and whether it exists; reply with
    /// `SettingsChecked`.
    CheckSettings,
    /// Write `contents` to `path`; reply with `SettingsWritten`.
    WriteSettings { path: String, contents: String },
    /// Open the settings file at `path` in the default editor; reply with
    /// `SettingsOpened`.
    OpenSettings { path: String },
    /// Find whether the installed executable exists at `in_home`, a path
    /// relative to the user's home directory given component by component;
    /// reply with `InstallChecked`.
    CheckInstall { in_home: Vec<String> },
    /// Read the user's answer to the uninstall question; reply with
    /// `Answered`, handing back `exe`.
    Confirm { exe: String },
    /// Delete the executable at `exe`; reply with `Removed`.
    Remove { exe: String },
    /// Start `program` with `args` in the current directory and stream its
    /// output back through `receive_output`.
    Run { program: String, args: Vec<String> },
}

/// A request as values.
pub enum RequestView {
    Idle,
    LocateHome,
    Resolve { base: Option<DirPathView>, relative: Option<Seq<char>>, target: Seq<char> },
    CheckSettings,
    WriteSettings { path: Seq<char>, contents: Seq<char> },
    OpenSettings { path: Seq<char> },
    CheckInstall { in_home: Seq<Seq<char>> },
    Confirm { exe: Seq<char> },
    Remove { exe: Seq<char> },
    Run { program: Seq<char>, args: Seq<Seq<char>> },
}

/// The text of an optional string.
pub open spec fn opt_text(o: Option<String>) -> Option<Seq<char>> {
    match o {
        Some(s) => Some(s@),
        None => None,
    }
}

impl View for Request {
    type V = RequestView;

    open spec fn view(&self) -> RequestView {
        match self {
            Request::Idle => RequestView::Idle,
            Request::LocateHome => RequestView::LocateHome,
            Request::Resolve { base, relative, target } => RequestView::Resolve {
                base: opt_dir(*base),
                relative: opt_text(*relative),
                target: target@,
            },
            Request::CheckSettings => RequestView::CheckSettings,
            Request::WriteSettings { path, contents } => RequestView::WriteSettings {
                path: path@,
                contents: contents@,
            },
            Request::OpenSettings { path } => RequestView::OpenSettings { path: path@ },
            Request::CheckInstall { in_home } => RequestView::CheckInstall { in_home: texts(in_home@) },
            Request::Confirm { exe } => RequestView::Confirm { exe: exe@ },
            Request::Remove { exe } => RequestView::Remove { exe: exe@ },
            Request::Run { program, args } => RequestView::Run {
                program: program@,
                args: texts(args@),
            },
        }
    }
}

/// The outcome of a request, as the front end hands it back.
#[derive(Debug, PartialEq, Eq)]
pub enum Reply {
    /// The home directory, if there is one.
    HomeLocated(Option<DirPath>),
    /// The canonical path, or the error's text.
    Resolved { target: String, outcome: Result<DirPath, String> },
    /// Where the settings file is and whether it exists.
    SettingsChecked { path: String, exists: bool },
    /// Whether the default settings could be written.
    SettingsWritten { path: String, written: Result<(), String> },
    /// Whether the settings file could be opened.
    SettingsOpened(Result<(), String>),
    /// Where the installed executable is and whether it exists.
    InstallChecked { exe: String, installed: bool },
    /// The line the user typed in answer to the uninstall question.
    Answered { exe: String, answer: String },
    /// Whether the executable could be deleted.
    Removed(Result<(), String>),
}

/// A reply as values.
pub enum ReplyView {
    HomeLocated(Option<DirPathView>),
    Resolved { target: Seq<char>, outcome: Result<DirPathView, Seq<char>> },
    SettingsChecked { path: Seq<char>, exists: bool },
    SettingsWritten { path: Seq<char>, written: Result<(), Seq<char>> },
    SettingsOpened(Result<(), Seq<char>>),
    InstallChecked { exe: Seq<char>, installed: bool },
    Answered { exe: Seq<char>, answer: Seq<char> },
    Removed(Result<(), Seq<char>>),
}

/// A directory or the text of its error.
pub open spec fn path_outcome(r: Result<DirPath, String>) -> Result<DirPathView, Seq<char>> {
    match r {
        Ok(p) => Ok(p@),
        Err(e) => Err(e@),
    }
}

/// The value of an optional directory.
pub open spec fn opt_dir(o: Option<DirPath>) -> Option<DirPathView> {
    match o {
        Some(d) => Some(d@),
        None => None,
    }
}

/// Success, or the text of the error.
pub open spec fn unit_outcome(r: Result<(), String>) -> Result<(), Seq<char>> {
    match r {
        Ok(()) => Ok(()),
        Err(e) => Err(e@),
    }
}

impl View for Reply {
    type V = ReplyView;

    open spec fn view(&self) -> ReplyView {
        match self {
            Reply::HomeLocated(h) => ReplyView::HomeLocated(opt_dir(*h)),
            Reply::Resolved { target, outcome } => ReplyView::Resolved {
                target: target@,
                outcome: path_outcome(*outcome),
            },
            Reply::SettingsChecked { path, exists } => ReplyView::SettingsChecked {
                path: path@,
                exists: *exists,
            },
            Reply::SettingsWritten { path, written } => ReplyView::SettingsWritten {
                path: path@,
                written: unit_outcome(*written),
            },
            Reply::SettingsOpened(o) => ReplyView::SettingsOpened(unit_outcome(*o)),
            Reply::InstallChecked { exe, installed } => ReplyView::InstallChecked {
                exe: exe@,
                installed: *installed,
            },
            Reply::Answered { exe, answer } => ReplyView::Answered { exe: exe@, answer: answer@ },
            Reply::Removed(o) => ReplyView::Removed(unit_outcome(*o)),
        }
    }
}

/// What entering the typed line leads to.
#[derive(Clone, Debug, PartialEq, Eq)]
pub enum Submission {
    /// A command is running: Enter does nothing.
    Ignored,
    /// The line was `exit`: the terminal closes.
    Exit,
    /// The line was run as a command, which asks for this work.
    Proceed(Request),
}

/// A submission as values.
pub enum SubmissionView {
    Ignored,
    Exit,
    Proceed(RequestView),
}

impl View for Submission {
    type V = SubmissionView;

    open spec fn view(&self) -> SubmissionView {
        match self {
            Submission::Ignored => SubmissionView::Ignored,
            Submission::Exit => SubmissionView::Exit,
            Submission::Proceed(r) => SubmissionView::Proceed(r@),
        }
    }
}

/// The state of a terminal session.
#[derive(Clone, Debug, PartialEq, Eq)]
pub struct Terminal {
    /// Where typed commands go.
    pub current_shell: Shell,
    /// The working directory of commands, as text.
    pub current_dir: DirPath,
    /// The line being typed.
    pub input: String,
    /// Everything shown above the prompt, oldest first.
    pub history: Vec<HistoryLine>,
    /// Whether the input line should take the keyboard focus.
    pub focus_input: bool,
    /// Whether an outside command is running.
    pub is_running: bool,
}

/// A session as values.
pub struct TerminalView {
    pub shell: Shell,
    pub dir: DirPathView,
    pub input: Seq<char>,
    pub history: Seq<Line>,
    pub focus_input: bool,
    pub is_running: bool,
}

impl View for Terminal {
    type V = TerminalView;

    open spec fn view(&self) -> TerminalView {
        TerminalView {
            shell: self.current_shell,
            dir: self.current_dir@,
            input: self.input@,
            history: lines(self.history@),
            focus_input: self.focus_input,
            is_running: self.is_running,
        }
    }
}

/// `t` with `line` added to its history.
pub open spec fn with_line(t: TerminalView, line: Line) -> TerminalView {
    TerminalView { history: t.history.push(line), ..t }
}

/// `t` with one output line per text added to its history.
pub open spec fn with_outputs(t: TerminalView, outputs: Seq<Seq<char>>) -> TerminalView {
    TerminalView { history: t.history + outputs.map_values(|o: Seq<char>| Line::Output(o)), ..t }
}

/// The prompt shown before the input line.
pub open spec fn prompt_of(shell: Shell, dir: Seq<char>) -> Seq<char> {
    dir + " ["@ + shell_name(shell) + "]> "@
}

/// The banner, the startup warnings as errors, and a reminder how to close
/// a window that has no title bar.
pub open spec fn initial_history(warnings: Seq<Seq<char>>, title_bar: TitleBarMode) -> Seq<Line> {
    seq![Line::Banner("=== CozyMDT ==="@), Line::Banner("  By FRANORDE   "@)] + warnings.map_values(
        |w: Seq<char>| Line::Error(w),
    ) + if title_bar == TitleBarMode::Hidden {
        seq![Line::Info("Title bar is disabled — type 'exit' to close CozyMDT."@)]
    } else {
        Seq::empty()
    }
}

/// A fresh session in `dir`, talking to the built-in shell.
pub open spec fn initial_terminal(warnings: Seq<Seq<char>>, title_bar: TitleBarMode, dir: DirPathView) -> TerminalView {
    TerminalView {
        shell: Shell::CozyT,
        dir,
        input: Seq::empty(),
        history: initial_history(warnings, title_bar),
        focus_input: true,
        is_running: false,
    }
}

/// The lines that `help` prints.
pub open spec fn help_lines() -> Seq<Seq<char>> {
    seq![
        "CozyT built-in commands:"@,
        "  help     - show this message"@,
        "  version  - show CozyMDT version"@,
        "  settings - open CozyMDT settings file (theme, font, title bar)"@,
        "  cd <dir> - change current directory"@,
        "  cozyu    - uninstall CozyMDT"@,
    ]
}

/// Where the installed executable lives, relative to the home directory.
pub open spec fn install_path_in_home() -> Seq<Seq<char>> {
    seq!["bin"@, "CozyMDT.exe"@]
}

/// The built-in commands of the CozyT shell: the session after it and the
/// work it asks for, or `None` when `input` names none of them.
pub open spec fn builtin_spec(t: TerminalView, input: Seq<char>) -> Option<(TerminalView, RequestView)> {
    if input == "help"@ {
        Some((with_outputs(t, help_lines()), RequestView::Idle))
    } else if input == "version"@ {
        Some((with_line(t, Line::Output("CozyMDT v0.1.0"@)), RequestView::Idle))
    } else if input == "settings"@ {
        Some((t, RequestView::CheckSettings))
    } else if input == "cozyu"@ {
        Some((t, RequestView::CheckInstall { in_home: install_path_in_home() }))
    } else {
        None
    }
}

/// The error for a line that is no built-in command.
pub open spec fn unknown_command_message(input: Seq<char>) -> Seq<char> {
    "Unknown CozyT command: '"@ + input + "' (try 'help')"@
}

/// `cd` with the text after it: to the home directory when that is blank,
/// else to the trimmed target relative to the current directory.
pub open spec fn cd_spec(t: TerminalView, raw_target: Seq<char>) -> (TerminalView, RequestView) {
    let target = trimmed(raw_target);
    if target.len() == 0 {
        (t, RequestView::LocateHome)
    } else {
        (t, RequestView::Resolve { base: None, relative: Some(target), target })
    }
}

/// `switch` with a trimmed shell name.
pub open spec fn switch_spec(t: TerminalView, name: Seq<char>) -> TerminalView {
    match shell_for_switch(name) {
        Some(s) => with_line(
            TerminalView { shell: s, ..t },
            Line::Info("Switched to "@ + shell_name(s)),
        ),
        None => with_line(t, Line::Error("Unknown shell: "@ + name)),
    }
}

/// The program that runs an outside shell, where `bash` is the one that
/// the bash lookup found.
pub open spec fn program_for(shell: Shell, bash: Seq<char>) -> Seq<char> {
    match shell {
        Shell::PowerShell => "powershell"@,
        Shell::Cmd => "cmd"@,
        _ => bash,
    }
}

/// Running a command line: it is recorded with the prompt, then handled as
/// `cd`, `switch`, a built-in command of CozyT, or handed to the outside
/// shell. `bash` is the program that the bash lookup found.
pub open spec fn run_spec(t0: TerminalView, input: Seq<char>, bash: Seq<char>) -> (TerminalView, RequestView) {
    let t = with_line(t0, Line::Command { prompt: prompt_of(t0.shell, t0.dir.shown), input });
    if input.len() == 0 {
        (t, RequestView::Idle)
    } else if starts_with(input, "cd "@) {
        cd_spec(t, input.skip("cd "@.len() as int))
    } else if input == "cd"@ {
        cd_spec(t, Seq::empty())
    } else if starts_with(input, "switch "@) {
        (switch_spec(t, trimmed(input.skip("switch "@.len() as int))), RequestView::Idle)
    } else if t.shell == Shell::CozyT {
        match builtin_spec(t, input) {
            Some(r) => r,
            None => (with_line(t, Line::Error(unknown_command_message(input))), RequestView::Idle),
        }
    } else {
        (
            TerminalView { is_running: true, ..t },
            RequestView::Run {
                program: program_for(t.shell, bash),
                args: seq![shell_flag(t.shell), input],
            },
        )
    }
}

/// Whether an answer to the uninstall question agrees to it.
pub open spec fn agrees(answer: Seq<char>) -> bool {
    lowercase_of(trimmed(answer)) == "y"@
}

/// Taking up the session after the front end did the work it asked for.
pub open spec fn resume_spec(t: TerminalView, reply: ReplyView) -> (TerminalView, RequestView) {
    match reply {
        ReplyView::HomeLocated(home) => (
            t,
            RequestView::Resolve {
                base: home,
                relative: None,
                target: Seq::empty(),
            },
        ),
        ReplyView::Resolved { target, outcome } => match outcome {
            Ok(p) => (TerminalView { dir: unc_stripped(p), ..t }, RequestView::Idle),
            Err(e) => (with_line(t, Line::Error("cd: "@ + target + ": "@ + e)), RequestView::Idle),
        },
        ReplyView::SettingsChecked { path, exists } => match settings_to_create_for(exists) {
            Some(contents) => (t, RequestView::WriteSettings { path, contents }),
            None => (t, RequestView::OpenSettings { path }),
        },
        ReplyView::SettingsWritten { path, written } => match written {
            Ok(()) => (
                with_line(t, Line::Info("Created default settings file at "@ + path)),
                RequestView::OpenSettings { path },
            ),
            Err(e) => (
                with_line(t, Line::Error("Could not create settings file: "@ + e)),
                RequestView::Idle,
            ),
        },
        ReplyView::SettingsOpened(outcome) => match outcome {
            Ok(()) => (
                with_line(t, Line::Info("Restart CozyMDT after saving to apply changes."@)),
                RequestView::Idle,
            ),
            Err(e) => (
                with_line(t, Line::Error("Could not open settings file: "@ + e)),
                RequestView::Idle,
            ),
        },
        ReplyView::InstallChecked { exe, installed } => if installed {
            (
                with_line(t, Line::Output("Are you sure you want to uninstall CozyMDT? (y/n)"@)),
                RequestView::Confirm { exe },
            )
        } else {
            (with_line(t, Line::Info("CozyMDT is not installed."@)), RequestView::Idle)
        },
        ReplyView::Answered { exe, answer } => if agrees(answer) {
            (t, RequestView::Remove { exe })
        } else {
            (with_line(t, Line::Info("Uninstall cancelled."@)), RequestView::Idle)
        },
        ReplyView::Removed(outcome) => match outcome {
            Ok(()) => (
                with_line(t, Line::Info("CozyMDT has been uninstalled."@)),
                RequestView::Idle,
            ),
            Err(e) => (
                with_line(t, Line::Error("Could not uninstall CozyMDT: "@ + e)),
                RequestView::Idle,
            ),
        },
    }
}

/// The session after output lines of the running command arrived, and,
/// when `finished`, after the command ended.
pub open spec fn receive_spec(t: TerminalView, outputs: Seq<Seq<char>>, finished: bool) -> TerminalView {
    let t2 = with_outputs(t, outputs);
    if finished {
        TerminalView { is_running: false, ..t2 }
    } else {
        t2
    }
}

/// The line that marks a command stopped by CTRL+C.
pub open spec fn interruption_notice() -> Seq<char> {
    "User interruption: CTRL+C"@
}

/// CTRL+C: a running command is reported stopped (and the front end is told
/// to kill it); otherwise a partly typed line is abandoned, recorded with
/// `^C`.
pub open spec fn interrupt_spec(t: TerminalView) -> (TerminalView, bool) {
    if t.is_running {
        (with_line(t, Line::Output(interruption_notice())), true)
    } else if t.input.len() > 0 {
        let logged = with_line(
            t,
            Line::Command { prompt: prompt_of(t.shell, t.dir.shown), input: t.input + "^C"@ },
        );
        (TerminalView { input: Seq::empty(), focus_input: true, ..logged }, false)
    } else {
        (t, false)
    }
}

/// Enter: ignored while a command runs; otherwise the typed line is taken
/// out of the input and trimmed, `exit` closes the terminal, and anything
/// else is run and the input takes the focus again.
pub open spec fn submit_spec(t: TerminalView, bash: Seq<char>) -> (TerminalView, SubmissionView) {
    let line = trimmed(t.input);
    let cleared = TerminalView { input: Seq::empty(), ..t };
    if t.is_running {
        (t, SubmissionView::Ignored)
    } else if line == "exit"@ {
        (cleared, SubmissionView::Exit)
    } else {
        let (t2, r) = run_spec(cleared, line, bash);
        (TerminalView { focus_input: true, ..t2 }, SubmissionView::Proceed(r))
    }
}

/// The input line takes the focus once when asked to, and not while a
/// command runs.
pub open spec fn claim_focus_spec(t: TerminalView) -> (TerminalView, bool) {
    if t.focus_input && !t.is_running {
        (TerminalView { focus_input: false, ..t }, true)
    } else {
        (t, false)
    }
}

/// The text `a` followed by `b`.
fn join2(a: &str, b: &str) -> (s: String)
    ensures
        s@ == a@ + b@,
{
    let mut s = a.to_owned();
    s.append(b);
    s
}

/// The text `a`, `b` and `c` one after the other.
fn join3(a: &str, b: &str, c: &str) -> (s: String)
    ensures
        s@ == a@ + b@ + c@,
{
    let mut s = a.to_owned();
    s.append(b);
    s.append(c);
    s
}

impl Terminal {
    /// A fresh session in `current_dir`, talking to the built-in shell,
    /// whose history opens with the banner and the startup warnings.
    pub fn new(startup_warnings: Vec<String>, title_bar: TitleBarMode, current_dir: DirPath) -> (t: Terminal)
        ensures
            t@ == initial_terminal(texts(startup_warnings@), title_bar, current_dir@),
    {
        let mut history: Vec<HistoryLine> = Vec::new();
        history.push(HistoryLine::Banner("=== CozyMDT ===".to_owned()));
        history.push(HistoryLine::Banner("  By FRANORDE   ".to_owned()));
        let n = startup_warnings.len();
        let mut i: usize = 0;
        while i < n
            invariant
                n == startup_warnings@.len(),
                i <= n,
                lines(history@) =~= seq![
                    Line::Banner("=== CozyMDT ==="@),
                    Line::Banner("  By FRANORDE   "@),
                ] + texts(startup_warnings@).take(i as int).map_values(|w: Seq<char>| Line::Error(w)),
            decreases n - i,
        {
            let ghost before = history@;
            history.push(HistoryLine::Error(startup_warnings[i].clone()));
            assert(texts(startup_warnings@).take(i + 1) =~= texts(startup_warnings@).take(
                i as int,
            ).push(startup_warnings@[i as int]@));
            assert(lines(history@) =~= lines(before).push(Line::Error(startup_warnings@[i as int]@)));
            i = i + 1;
        }
        assert(texts(startup_warnings@).take(n as int) =~= texts(startup_warnings@));
        let ghost with_warnings = history@;
        match title_bar {
            TitleBarMode::Hidden => {
                history.push(
                    HistoryLine::Info(
                        "Title bar is disabled — type 'exit' to close CozyMDT.".to_owned(),
                    ),
                );
                assert(lines(history@) =~= lines(with_warnings).push(
                    Line::Info("Title bar is disabled — type 'exit' to close CozyMDT."@),
                ));
            },
            _ => {},
        }
        let t = Terminal {
            current_shell: Shell::CozyT,
            current_dir,
            input: String::new(),
            history,
            focus_input: true,
            is_running: false,
        };
        assert(t@.history =~= initial_history(texts(startup_warnings@), title_bar));
        t
    }

    /// Adds `line` to the history.
    fn push_line(&mut self, line: HistoryLine)
        ensures
            final(self)@ == with_line(old(self)@, line@),
    {
        let ghost before = self.history@;
        self.history.push(line);
        assert(lines(self.history@) =~= lines(before).push(line@));
    }

    /// Adds a line of command output to the history.
    pub fn log(&mut self, line: String)
        ensures
            final(self)@ == with_line(old(self)@, Line::Output(line@)),
    {
        self.push_line(HistoryLine::Output(line));
    }

    /// Adds an error message to the history.
    pub fn log_error(&mut self, line: String)
        ensures
            final(self)@ == with_line(old(self)@, Line::Error(line@)),
    {
        self.push_line(HistoryLine::Error(line));
    }

    /// Adds an informational message to the history.
    pub fn log_info(&mut self, line: String)
        ensures
            final(self)@ == with_line(old(self)@, Line::Info(line@)),
    {
        self.push_line(HistoryLine::Info(line));
    }

    /// The prompt: the current directory and the current shell's name.
    pub fn prompt(&self) -> (p: String)
        ensures
            p@ == prompt_of(self.current_shell, self.current_dir.shown@),
    {
        let mut p = self.current_dir.shown.clone();
        p.append(" [");
        p.append(self.current_shell.name());
        p.append("]> ");
        p
    }

    /// Records `input` as entered at the current prompt.
    pub fn log_command(&mut self, input: &str)
        ensures
            final(self)@ == with_line(
                old(self)@,
                Line::Command { prompt: prompt_of(old(self)@.shell, old(self)@.dir.shown), input: input@ },
            ),
    {
        let prompt = self.prompt();
        self.push_line(HistoryLine::Command { prompt, input: input.to_owned() });
    }

    /// Starts `cd` with the text after it.
    pub fn handle_cd(&self, target: &str) -> (req: Request)
        ensures
            (self@, req@) == cd_spec(self@, target@),
    {
        let target = trim(target);
        if target.unicode_len() == 0 {
            Request::LocateHome
        } else {
            Request::Resolve {
                base: None,
                relative: Some(target.to_owned()),
                target: target.to_owned(),
            }
        }
    }

    /// Selects the shell that a trimmed name stands for, or reports that
    /// there is none.
    fn switch_shell(&mut self, name: &str)
        ensures
            final(self)@ == switch_spec(old(self)@, name@),
    {
        match Shell::from_switch_name(name) {
            Some(s) => {
                self.current_shell = s;
                self.log_info(join2("Switched to ", s.name()));
            },
            None => {
                self.log_error(join2("Unknown shell: ", name));
            },
        }
    }

    /// Runs a built-in command of the CozyT shell; `None` when `input`
    /// names none.
    pub fn handle_cozyt_command(&mut self, input: &str) -> (req: Option<Request>)
        ensures
            match builtin_spec(old(self)@, input@) {
                Some((t, r)) => final(self)@ == t && (req matches Some(q) && q@ == r),
                None => final(self)@ == old(self)@ && req is None,
            },
    {
        if str_eq(input, "help") {
            let ghost start = self@;
            self.log("CozyT built-in commands:".to_owned());
            self.log("  help     - show this message".to_owned());
            self.log("  version  - show CozyMDT version".to_owned());
            self.log("  settings - open CozyMDT settings file (theme, font, title bar)".to_owned());
            self.log("  cd <dir> - change current directory".to_owned());
            self.log("  cozyu    - uninstall CozyMDT".to_owned());
            assert(self@.history =~= with_outputs(start, help_lines()).history);
            Some(Request::Idle)
        } else if str_eq(input, "version") {
            self.log("CozyMDT v0.1.0".to_owned());
            Some(Request::Idle)
        } else if str_eq(input, "settings") {
            Some(Request::CheckSettings)
        } else if str_eq(input, "cozyu") {
            let mut in_home: Vec<String> = Vec::new();
            in_home.push("bin".to_owned());
            in_home.push("CozyMDT.exe".to_owned());
            assert(texts(in_home@) =~= install_path_in_home());
            Some(Request::CheckInstall { in_home })
        } else {
            None
        }
    }

    /// Runs a command line: records it, then handles `cd`, `switch`, the
    /// built-in commands of CozyT, or hands it to the outside shell.
    pub fn run_command(&mut self, input: &str) -> (req: Request)
        ensures
            exists|bash: Seq<char>|
                is_bash_choice(bash) && (final(self)@, req@) == run_spec(old(self)@, input@, bash),
    {
        assert(is_bash_choice("bash"@));
        let ghost start = self@;
        self.log_command(input);
        if input.is_empty() {
            assert((self@, RequestView::Idle) == run_spec(start, input@, "bash"@));
            return Request::Idle;
        }
        if let Some(target) = strip_prefix(input, "cd ") {
            let req = self.handle_cd(target);
            assert((self@, req@) == run_spec(start, input@, "bash"@));
            return req;
        }
        if str_eq(input, "cd") {
            proof {
                reveal_strlit("");
            }
            let req = self.handle_cd("");
            assert((self@, req@) == run_spec(start, input@, "bash"@));
            return req;
        }
        if let Some(target) = strip_prefix(input, "switch ") {
            self.switch_shell(trim(target));
            assert((self@, RequestView::Idle) == run_spec(start, input@, "bash"@));
            return Request::Idle;
        }
        match self.current_shell {
            Shell::CozyT => {
                let req = match self.handle_cozyt_command(input) {
                    Some(req) => req,
                    None => {
                        self.log_error(join3("Unknown CozyT command: '", input, "' (try 'help')"));
                        Request::Idle
                    },
                };
                assert((self@, req@) == run_spec(start, input@, "bash"@));
                return req;
            },
            _ => {},
        }
        let (program, flag) = self.current_shell.program_and_flag();
        self.is_running = true;
        let mut args: Vec<String> = Vec::new();
        args.push(flag.to_owned());
        args.push(input.to_owned());
        assert(texts(args@) =~= seq![shell_flag(self.current_shell), input@]);
        let ghost bash = if self.current_shell is Bash {
            program@
        } else {
            "bash"@
        };
        let req = Request::Run { program, args };
        assert(req@ == run_spec(start, input@, bash).1);
        assert((self@, req@) == run_spec(start, input@, bash));
        req
    }

    /// Takes the session up again with the outcome of the work that the
    /// last request asked for, and says what to do next.
    pub fn resume(&mut self, reply: Reply) -> (req: Request)
        ensures
            (final(self)@, req@) == resume_spec(old(self)@, reply@),
    {
        match reply {
            Reply::HomeLocated(home) => {
                Request::Resolve { base: home, relative: None, target: String::new() }
            },
            Reply::Resolved { target, outcome } => {
                match outcome {
                    Ok(p) => {
                        self.current_dir = strip_unc_prefix(p);
                    },
                    Err(e) => {
                        let mut m = join3("cd: ", target.as_str(), ": ");
                        m.append(e.as_str());
                        self.log_error(m);
                    },
                }
                Request::Idle
            },
            Reply::SettingsChecked { path, exists } => {
                match settings_to_create(exists) {
                    Some(contents) => Request::WriteSettings { path, contents },
                    None => Request::OpenSettings { path },
                }
            },
            Reply::SettingsWritten { path, written } => {
                match written {
                    Ok(()) => {
                        self.log_info(join2("Created default settings file at ", path.as_str()));
                        Request::OpenSettings { path }
                    },
                    Err(e) => {
                        self.log_error(join2("Could not create settings file: ", e.as_str()));
                        Request::Idle
                    },
                }
            },
            Reply::SettingsOpened(outcome) => {
                match outcome {
                    Ok(()) => {
                        self.log_info("Restart CozyMDT after saving to apply changes.".to_owned());
                    },
                    Err(e) => {
                        self.log_error(join2("Could not open settings file: ", e.as_str()));
                    },
                }
                Request::Idle
            },
            Reply::InstallChecked { exe, installed } => {
                if installed {
                    self.log("Are you sure you want to uninstall CozyMDT? (y/n)".to_owned());
                    Request::Confirm { exe }
                } else {
                    self.log_info("CozyMDT is not installed.".to_owned());
                    Request::Idle
                }
            },
            Reply::Answered { exe, answer } => {
                let lowered = to_lowercase(trim(answer.as_str()));
                if str_eq(lowered.as_str(), "y") {
                    Request::Remove { exe }
                } else {
                    self.log_info("Uninstall cancelled.".to_owned());
                    Request::Idle
                }
            },
            Reply::Removed(outcome) => {
                match outcome {
                    Ok(()) => {
                        self.log_info("CozyMDT has been uninstalled.".to_owned());
                    },
                    Err(e) => {
                        self.log_error(join2("Could not uninstall CozyMDT: ", e.as_str()));
                    },
                }
                Request::Idle
            },
        }
    }

    /// Adds the lines the running command printed and, when `finished`,
    /// notes that it ended.
    pub fn receive_output(&mut self, output: Vec<String>, finished: bool)
        ensures
            final(self)@ == receive_spec(old(self)@, texts(output@), finished),
    {
        let ghost start = self@;
        let n = output.len();
        let mut i: usize = 0;
        while i < n
            invariant
                n == output@.len(),
                i <= n,
                self@ == with_outputs(start, texts(output@).take(i as int)),
            decreases n - i,
        {
            let ghost before = self@;
            self.log(output[i].clone());
            assert(texts(output@).take(i + 1) =~= texts(output@).take(i as int).push(
                output@[i as int]@,
            ));
            assert(self@.history =~= with_outputs(start, texts(output@).take(i + 1)).history);
            i = i + 1;
        }
        assert(texts(output@).take(n as int) =~= texts(output@));
        if finished {
            self.is_running = false;
        }
    }

    /// CTRL+C. Returns whether the running command is to be killed.
    pub fn interrupt(&mut self) -> (kill: bool)
        ensures
            (final(self)@, kill) == interrupt_spec(old(self)@),
    {
        if self.is_running {
            self.log("User interruption: CTRL+C".to_owned());
            true
        } else if !self.input.as_str().is_empty() {
            let cancelled = self.input.clone();
            self.input = String::new();
            self.log_command(join2(cancelled.as_str(), "^C").as_str());
            self.focus_input = true;
            false
        } else {
            false
        }
    }

    /// Enter: unless a command runs, takes the typed line and closes the
    /// terminal on `exit` or runs it.
    pub fn submit(&mut self) -> (s: Submission)
        ensures
            exists|bash: Seq<char>|
                is_bash_choice(bash) && (final(self)@, s@) == submit_spec(old(self)@, bash),
    {
        let ghost start = self@;
        if self.is_running {
            assert(is_bash_choice("bash"@));
            assert((self@, SubmissionView::Ignored) == submit_spec(start, "bash"@));
            return Submission::Ignored;
        }
        let typed = self.input.clone();
        self.input = String::new();
        let line = trim(typed.as_str());
        if str_eq(line, "exit") {
            assert(is_bash_choice("bash"@));
            assert((self@, SubmissionView::Exit) == submit_spec(start, "bash"@));
            return Submission::Exit;
        }
        let ghost cleared = self@;
        let req = self.run_command(line);
        let ghost bash = choose|bash: Seq<char>|
            is_bash_choice(bash) && (self@, req@) == run_spec(cleared, line@, bash);
        self.focus_input = true;
        assert((self@, SubmissionView::Proceed(req@)) == submit_spec(start, bash));
        Submission::Proceed(req)
    }

    /// Whether the input line should take the focus now; asking clears the
    /// wish.
    pub fn claim_focus(&mut self) -> (granted: bool)
        ensures
            (final(self)@, granted) == claim_focus_spec(old(self)@),
    {
        if self.focus_input && !self.is_running {
            self.focus_input = false;
            true
        } else {
            false
        }
    }
}

/// `b` begins with `a`.
pub open spec fn extends<A>(a: Seq<A>, b: Seq<A>) -> bool {
    a.len() <= b.len() && b.subrange(0, a.len() as int) == a
}

proof fn lemma_extends_push<A>(a: Seq<A>, x: A)
    ensures
        extends(a, a.push(x)),
{
    assert(a.push(x).subrange(0, a.len() as int) =~= a);
}

proof fn lemma_extends_concat<A>(a: Seq<A>, b: Seq<A>)
    ensures
        extends(a, a + b),
{
    assert((a + b).subrange(0, a.len() as int) =~= a);
}

proof fn lemma_extends_trans<A>(a: Seq<A>, b: Seq<A>, c: Seq<A>)
    requires
        extends(a, b),
        extends(b, c),
    ensures
        extends(a, c),
{
    assert(c.subrange(0, a.len() as int) =~= b.subrange(0, a.len() as int));
}

proof fn lemma_extends_refl<A>(a: Seq<A>)
    ensures
        extends(a, a),
{
    assert(a.subrange(0, a.len() as int) =~= a);
}

/// Running a command line first records it at the prompt it was entered
/// at; whatever follows only adds to the history.
pub proof fn commands_are_recorded_first(t: TerminalView, input: Seq<char>, bash: Seq<char>)
    ensures
        extends(
            t.history.push(Line::Command { prompt: prompt_of(t.shell, t.dir.shown), input }),
            run_spec(t, input, bash).0.history,
        ),
{
    let h = t.history.push(Line::Command { prompt: prompt_of(t.shell, t.dir.shown), input });
    lemma_extends_refl(h);
    lemma_extends_concat(h, help_lines().map_values(|o: Seq<char>| Line::Output(o)));
    lemma_extends_push(h, Line::Output("CozyMDT v0.1.0"@));
    lemma_extends_push(h, Line::Error(unknown_command_message(input)));
    let name = trimmed(input.skip("switch "@.len() as int));
    lemma_extends_push(h, Line::Error("Unknown shell: "@ + name));
    match shell_for_switch(name) {
        Some(s) => lemma_extends_push(h, Line::Info("Switched to "@ + shell_name(s))),
        None => {},
    }
}

/// The outcome of outside work only ever adds to the history.
pub proof fn replies_keep_history(t: TerminalView, reply: ReplyView)
    ensures
        extends(t.history, resume_spec(t, reply).0.history),
{
    lemma_extends_refl(t.history);
    let r = resume_spec(t, reply).0;
    if r.history != t.history {
        assert(r.history.len() == t.history.len() + 1);
        assert(r.history.subrange(0, t.history.len() as int) =~= t.history);
    }
}

/// Output of a running command is added below the history, line by line
/// in the order it came, and the end of the command clears the running
/// mark.
pub proof fn output_is_appended_in_order(t: TerminalView, outputs: Seq<Seq<char>>, finished: bool)
    ensures
        receive_spec(t, outputs, finished).history == t.history + outputs.map_values(
            |o: Seq<char>| Line::Output(o),
        ),
        finished ==> !receive_spec(t, outputs, finished).is_running,
        !finished ==> receive_spec(t, outputs, finished).is_running == t.is_running,
{
}

/// Only a successful `cd` moves the session: running a command line never
/// changes the directory by itself, and a reply changes it only when it is
/// a resolved path, which becomes the directory without its `\\?\` prefix.
pub proof fn only_resolved_paths_move_the_session(
    t: TerminalView,
    input: Seq<char>,
    bash: Seq<char>,
    reply: ReplyView,
)
    ensures
        run_spec(t, input, bash).0.dir == t.dir,
        resume_spec(t, reply).0.dir != t.dir ==> (reply matches ReplyView::Resolved {
            outcome: Ok(p),
            ..
        } && resume_spec(t, reply).0.dir == unc_stripped(p)),
{
}

/// Nothing is uninstalled without consent: only an answer that reads `y`
/// (ignoring case and surrounding white space) leads to deleting the
/// executable, and no command line asks for it directly.
pub proof fn uninstall_needs_consent(t: TerminalView, input: Seq<char>, bash: Seq<char>, reply: ReplyView)
    ensures
        !(run_spec(t, input, bash).1 is Remove),
        resume_spec(t, reply).1 is Remove ==> (reply matches ReplyView::Answered { answer, .. }
            && agrees(answer)),
{
}

/// An existing settings file is never overwritten, and a fresh one gets
/// the default settings: a write is asked for only where the check found
/// no file, and it writes `DEFAULT_SETTINGS`.
pub proof fn settings_file_is_never_overwritten(
    t: TerminalView,
    input: Seq<char>,
    bash: Seq<char>,
    reply: ReplyView,
)
    ensures
        !(run_spec(t, input, bash).1 is WriteSettings),
        resume_spec(t, reply).1 is WriteSettings ==> (reply matches ReplyView::SettingsChecked {
            exists: false,
            ..
        }),
        resume_spec(t, reply).1 matches RequestView::WriteSettings { contents, .. } ==> contents
            == DEFAULT_SETTINGS@,
{
}

/// Typing `exit` (with any surrounding white space) closes the terminal,
/// and nothing else does; while a command runs, Enter changes nothing.
pub proof fn exit_closes_the_terminal(t: TerminalView, bash: Seq<char>)
    ensures
        submit_spec(t, bash).1 is Exit <==> !t.is_running && trimmed(t.input) == "exit"@,
        t.is_running ==> submit_spec(t, bash) == (t, SubmissionView::Ignored),
{
}

/// CTRL+C asks to kill a command exactly when one is running, and then
/// reports the interruption as the newest line.
pub proof fn interrupt_stops_only_running_commands(t: TerminalView)
    ensures
        interrupt_spec(t).1 == t.is_running,
        t.is_running ==> interrupt_spec(t).0 == with_line(
            t,
            Line::Output("User interruption: CTRL+C"@),
        ),
        !t.is_running && t.input.len() > 0 ==> interrupt_spec(t).0 == (TerminalView {
            input: Seq::empty(),
            focus_input: true,
            ..with_line(
                t,
                Line::Command { prompt: prompt_of(t.shell, t.dir.shown), input: t.input + seq!['^', 'C'] },
            )
        }),
        !t.is_running && t.input.len() == 0 ==> interrupt_spec(t).0 == t,
{
    reveal_strlit("^C");
    assert("^C"@ =~= seq!['^', 'C']);
}

/// A command line marks the session running exactly when it starts an
/// outside program.
pub proof fn outside_commands_mark_running(t: TerminalView, input: Seq<char>, bash: Seq<char>)
    ensures
        run_spec(t, input, bash).1 is Run ==> run_spec(t, input, bash).0.is_running,
        !(run_spec(t, input, bash).1 is Run) ==> run_spec(t, input, bash).0.is_running
            == t.is_running,
{
}

/// The line recorded for `input` entered in session `t`.
pub open spec fn entered(t: TerminalView, input: Seq<char>) -> Line {
    Line::Command { prompt: prompt_of(t.shell, t.dir.shown), input }
}

/// `cd` is the terminal's own command in every shell: a line that is `cd`
/// or starts with `cd ` never goes to an outside program. It asks for the
/// home directory when the trimmed target is blank, and otherwise to
/// resolve the trimmed target against the current directory; the session
/// itself only records the line.
pub proof fn cd_is_handled_in_every_shell(t: TerminalView, input: Seq<char>, bash: Seq<char>)
    requires
        starts_with(input, "cd "@) || input == "cd"@,
    ensures
        run_spec(t, input, bash).1 is Resolve || run_spec(t, input, bash).1 is LocateHome,
        run_spec(t, input, bash).0 == with_line(t, entered(t, input)),
        ({
            let target = if input == "cd"@ {
                Seq::<char>::empty()
            } else {
                trimmed(input.skip(3))
            };
            &&& target.len() == 0 ==> run_spec(t, input, bash).1 == RequestView::LocateHome
            &&& target.len() > 0 ==> run_spec(t, input, bash).1 == (RequestView::Resolve {
                base: None,
                relative: Some(target),
                target,
            })
        }),
{
    reveal_strlit("cd ");
    reveal_strlit("cd");
    if input == "cd"@ {
        assert(!starts_with(input, "cd "@));
        assert(trimmed(Seq::<char>::empty()) =~= Seq::<char>::empty()) by {
            assert(Seq::<char>::empty().skip(0) =~= Seq::<char>::empty());
        }
    }
}

/// In PowerShell, cmd and bash, a line that is neither empty, `cd` nor
/// `switch` goes to the shell's program unchanged, after its command flag,
/// and the session is marked running.
pub proof fn outside_shells_run_the_line(t: TerminalView, input: Seq<char>, bash: Seq<char>)
    requires
        t.shell != Shell::CozyT,
        input.len() > 0,
        !starts_with(input, "cd "@),
        input != "cd"@,
        !starts_with(input, "switch "@),
    ensures
        t.shell == Shell::PowerShell ==> run_spec(t, input, bash).1 == (RequestView::Run {
            program: "powershell"@,
            args: seq!["-Command"@, input],
        }),
        t.shell == Shell::Cmd ==> run_spec(t, input, bash).1 == (RequestView::Run {
            program: "cmd"@,
            args: seq!["/C"@, input],
        }),
        t.shell == Shell::Bash ==> run_spec(t, input, bash).1 == (RequestView::Run {
            program: bash,
            args: seq!["-c"@, input],
        }),
        run_spec(t, input, bash).0 == (TerminalView {
            is_running: true,
            ..with_line(t, entered(t, input))
        }),
{
}

/// The built-in shell never starts an outside program, and the running
/// mark stays as it was.
pub proof fn cozyt_never_runs_programs(t: TerminalView, input: Seq<char>, bash: Seq<char>)
    requires
        t.shell == Shell::CozyT,
    ensures
        !(run_spec(t, input, bash).1 is Run),
        run_spec(t, input, bash).0.is_running == t.is_running,
        run_spec(t, input, bash).0.dir == t.dir,
{
}

/// The built-in commands of CozyT: `version` prints the version, `help`
/// prints the command list, `settings` and `cozyu` start their work, and
/// any other line that is not empty, `cd` or `switch` is reported as
/// unknown.
pub proof fn cozyt_builtins(t: TerminalView, input: Seq<char>, bash: Seq<char>)
    requires
        t.shell == Shell::CozyT,
    ensures
        input == "version"@ ==> run_spec(t, input, bash) == (
            with_line(with_line(t, entered(t, input)), Line::Output("CozyMDT v0.1.0"@)),
            RequestView::Idle,
        ),
        input == "help"@ ==> run_spec(t, input, bash).1 == RequestView::Idle
            && run_spec(t, input, bash).0.history.len() == t.history.len() + 7
            && run_spec(t, input, bash).0.history[t.history.len() as int + 1] == Line::Output(
            "CozyT built-in commands:"@,
        ),
        input == "settings"@ ==> run_spec(t, input, bash) == (
            with_line(t, entered(t, input)),
            RequestView::CheckSettings,
        ),
        input == "cozyu"@ ==> run_spec(t, input, bash) == (
            with_line(t, entered(t, input)),
            RequestView::CheckInstall { in_home: seq!["bin"@, "CozyMDT.exe"@] },
        ),
        input.len() > 0 && !starts_with(input, "cd "@) && input != "cd"@ && !starts_with(
            input,
            "switch "@,
        ) && input != "version"@ && input != "help"@ && input != "settings"@ && input
            != "cozyu"@ ==> run_spec(t, input, bash) == (
            with_line(
                with_line(t, entered(t, input)),
                Line::Error("Unknown CozyT command: '"@ + input + "' (try 'help')"@),
            ),
            RequestView::Idle,
        ),
{
    reveal_strlit("cd ");
    reveal_strlit("cd");
    reveal_strlit("switch ");
    reveal_strlit("version");
    reveal_strlit("help");
    reveal_strlit("settings");
    reveal_strlit("cozyu");
    if input == "version"@ {
        lemma_differs_at(input, "cd "@, 0);
        lemma_differs_at(input, "switch "@, 0);
        assert(input.len() != "help"@.len());
    }
    if input == "help"@ {
        lemma_differs_at(input, "cd "@, 0);
        lemma_differs_at(input, "switch "@, 0);
        let t1 = with_line(t, entered(t, input));
        assert(with_outputs(t1, help_lines()).history =~= t1.history + help_lines().map_values(
            |o: Seq<char>| Line::Output(o),
        ));
        assert(with_outputs(t1, help_lines()).history[t.history.len() as int + 1] == Line::Output(
            help_lines()[0],
        ));
    }
    if input == "settings"@ {
        lemma_differs_at(input, "cd "@, 0);
        lemma_differs_at(input, "switch "@, 1);
        assert(input.len() != "help"@.len() && input.len() != "version"@.len());
    }
    if input == "cozyu"@ {
        lemma_differs_at(input, "cd "@, 1);
        lemma_differs_at(input, "switch "@, 0);
        assert(input.len() != "help"@.len() && input.len() != "version"@.len());
        assert(input.len() != "settings"@.len());
    }
}

/// A line that differs from `p` at a position within both is not one that
/// starts with `p`.
proof fn lemma_differs_at(s: Seq<char>, p: Seq<char>, i: int)
    requires
        0 <= i < p.len(),
        i < s.len(),
        s[i] != p[i],
    ensures
        !starts_with(s, p),
        s != p,
{
    if starts_with(s, p) {
        assert(s.subrange(0, p.len() as int)[i] == s[i]);
    }
}

/// `switch` never runs anything: it selects the named shell when the
/// trimmed name is one, and otherwise leaves the shell as it was.
pub proof fn switch_selects_named_shells(t: TerminalView, input: Seq<char>, bash: Seq<char>)
    requires
        starts_with(input, "switch "@),
    ensures
        run_spec(t, input, bash).1 == RequestView::Idle,
        run_spec(t, input, bash).0.is_running == t.is_running,
        run_spec(t, input, bash).0.dir == t.dir,
        run_spec(t, input, bash).0.shell == match shell_for_switch(trimmed(input.skip(7))) {
            Some(s) => s,
            None => t.shell,
        },
{
    reveal_strlit("cd ");
    reveal_strlit("cd");
    reveal_strlit("switch ");
    assert(input.subrange(0, 7)[0] == input[0]);
    lemma_differs_at(input, "cd "@, 0);
    assert(input != "cd"@);
}

/// Consent to uninstall is exact: the executable is removed exactly when
/// the answer, trimmed and lower-cased, is `y`; any other answer cancels
/// with a message.
pub proof fn uninstall_consent_is_exact(t: TerminalView, exe: Seq<char>, answer: Seq<char>)
    ensures
        (resume_spec(t, ReplyView::Answered { exe, answer }).1 == RequestView::Remove { exe })
            <==> lowercase_of(trimmed(answer)) == "y"@,
        lowercase_of(trimmed(answer)) == "y"@ ==> resume_spec(
            t,
            ReplyView::Answered { exe, answer },
        ).0 == t,
        lowercase_of(trimmed(answer)) != "y"@ ==> resume_spec(t, ReplyView::Answered { exe, answer })
            == (with_line(t, Line::Info("Uninstall cancelled."@)), RequestView::Idle),
{
}

/// How each outcome of outside work continues: `cd` moves to the resolved
/// directory or reports the error and stays; the home lookup resolves the
/// home directory (or the current one, where there is none); a missing
/// settings file is created with the defaults before it is opened, an
/// existing one is opened as it is; an installed executable leads to the
/// question, a missing one to a message.
pub proof fn replies_continue_the_work(t: TerminalView, reply: ReplyView)
    ensures
        resume_spec(t, reply).0.shell == t.shell,
        resume_spec(t, reply).0.is_running == t.is_running,
        resume_spec(t, reply).0.input == t.input,
        reply matches ReplyView::Resolved { outcome: Ok(p), .. } ==> resume_spec(t, reply) == (
            TerminalView { dir: unc_stripped(p), ..t },
            RequestView::Idle,
        ),
        reply matches ReplyView::Resolved { target, outcome: Err(e) } ==> resume_spec(t, reply)
            == (with_line(t, Line::Error("cd: "@ + target + ": "@ + e)), RequestView::Idle),
        reply matches ReplyView::HomeLocated(home) ==> resume_spec(t, reply) == (
            t,
            RequestView::Resolve { base: home, relative: None, target: Seq::empty() },
        ),
        reply matches ReplyView::SettingsChecked { path, exists } ==> resume_spec(t, reply) == (
            t,
            if exists {
                RequestView::OpenSettings { path }
            } else {
                RequestView::WriteSettings { path, contents: DEFAULT_SETTINGS@ }
            },
        ),
        reply matches ReplyView::SettingsWritten { path, written: Ok(()) } ==> resume_spec(
            t,
            reply,
        ) == (
            with_line(t, Line::Info("Created default settings file at "@ + path)),
            RequestView::OpenSettings { path },
        ),
        reply matches ReplyView::SettingsWritten { written: Err(e), .. } ==> resume_spec(t, reply)
            == (with_line(t, Line::Error("Could not create settings file: "@ + e)), RequestView::Idle),
        reply matches ReplyView::SettingsOpened(Ok(())) ==> resume_spec(t, reply) == (
            with_line(t, Line::Info("Restart CozyMDT after saving to apply changes."@)),
            RequestView::Idle,
        ),
        reply matches ReplyView::SettingsOpened(Err(e)) ==> resume_spec(t, reply) == (
            with_line(t, Line::Error("Could not open settings file: "@ + e)),
            RequestView::Idle,
        ),
        reply matches ReplyView::InstallChecked { exe, installed } ==> resume_spec(t, reply) == (
            if installed {
                (
                    with_line(
                        t,
                        Line::Output("Are you sure you want to uninstall CozyMDT? (y/n)"@),
                    ),
                    RequestView::Confirm { exe },
                )
            } else {
                (with_line(t, Line::Info("CozyMDT is not installed."@)), RequestView::Idle)
            }
        ),
        reply matches ReplyView::Removed(Ok(())) ==> resume_spec(t, reply) == (
            with_line(t, Line::Info("CozyMDT has been uninstalled."@)),
            RequestView::Idle,
        ),
        reply matches ReplyView::Removed(Err(e)) ==> resume_spec(t, reply) == (
            with_line(t, Line::Error("Could not uninstall CozyMDT: "@ + e)),
            RequestView::Idle,
        ),
{
}

/// The input line takes the focus once after it was asked to, and never
/// while a command runs; claiming changes nothing else.
pub proof fn focus_is_claimed_once(t: TerminalView)
    ensures
        claim_focus_spec(t).1 == (t.focus_input && !t.is_running),
        claim_focus_spec(t).1 ==> !claim_focus_spec(t).0.focus_input && !claim_focus_spec(
            claim_focus_spec(t).0,
        ).1,
        claim_focus_spec(t).0.history == t.history,
        claim_focus_spec(t).0.input == t.input,
        claim_focus_spec(t).0.is_running == t.is_running,
{
}

/// Enter on a line other than `exit`, while nothing runs, empties the
/// input, records the trimmed line at the prompt, and gives the input the
/// focus again.
pub proof fn enter_runs_the_trimmed_line(t: TerminalView, bash: Seq<char>)
    requires
        !t.is_running,
        trimmed(t.input) != "exit"@,
    ensures
        submit_spec(t, bash).1 is Proceed,
        submit_spec(t, bash).0.input.len() == 0,
        submit_spec(t, bash).0.focus_input,
        extends(
            t.history.push(Line::Command { prompt: prompt_of(t.shell, t.dir.shown), input: trimmed(t.input) }),
            submit_spec(t, bash).0.history,
        ),
{
    let cleared = TerminalView { input: Seq::empty(), ..t };
    commands_are_recorded_first(cleared, trimmed(t.input), bash);
    let line = trimmed(t.input);
    let r = run_spec(cleared, line, bash);
    assert(r.0.input == cleared.input) by {
        reveal_strlit("cd ");
    }
}

/// A new session opens on the built-in shell, idle, with an empty input
/// that has the focus; its history is the two banner lines, then each
/// startup warning as an error, in order, then, for a window without a
/// title bar, how to close it.
pub proof fn sessions_open_with_banner_and_warnings(
    warnings: Seq<Seq<char>>,
    title_bar: TitleBarMode,
    dir: DirPathView,
)
    ensures
        ({
            let t = initial_terminal(warnings, title_bar, dir);
            &&& t.shell == Shell::CozyT
            &&& t.dir == dir
            &&& t.input.len() == 0
            &&& t.focus_input
            &&& !t.is_running
            &&& t.history.len() == 2 + warnings.len() + if title_bar == TitleBarMode::Hidden {
                1int
            } else {
                0
            }
            &&& t.history[0] == Line::Banner("=== CozyMDT ==="@)
            &&& t.history[1] == Line::Banner("  By FRANORDE   "@)
            &&& forall|i: int| 0 <= i < warnings.len() ==> t.history[2 + i] == Line::Error(warnings[i])
            &&& title_bar == TitleBarMode::Hidden ==> t.history.last() == Line::Info(
                "Title bar is disabled — type 'exit' to close CozyMDT."@,
            )
        }),
{
    let t = initial_terminal(warnings, title_bar, dir);
    let head = seq![Line::Banner("=== CozyMDT ==="@), Line::Banner("  By FRANORDE   "@)];
    let mid = warnings.map_values(|w: Seq<char>| Line::Error(w));
    assert forall|i: int| 0 <= i < warnings.len() implies t.history[2 + i] == Line::Error(
        warnings[i],
    ) by {
        assert((head + mid)[2 + i] == mid[i]);
    }
}

/// The help text, line by line.
pub proof fn help_lists_every_builtin()
    ensures
        help_lines() == seq![
            "CozyT built-in commands:"@,
            "  help     - show this message"@,
            "  version  - show CozyMDT version"@,
            "  settings - open CozyMDT settings file (theme, font, title bar)"@,
            "  cd <dir> - change current directory"@,
            "  cozyu    - uninstall CozyMDT"@,
        ],
{
}

} // verus!
