use cozymdt::paths::DirPath;
use cozymdt::settings::{TitleBarMode, DEFAULT_SETTINGS};
use cozymdt::shell::Shell;
use cozymdt::terminal::{HistoryLine, Reply, Request, Submission, Terminal};

fn fresh() -> Terminal {
    Terminal::new(Vec::new(), TitleBarMode::Custom, text_dir(r"C:\work"))
}

fn text_dir(s: &str) -> DirPath {
    DirPath { shown: s.to_string(), native: None }
}

fn out(s: &str) -> HistoryLine {
    HistoryLine::Output(s.to_string())
}

fn err(s: &str) -> HistoryLine {
    HistoryLine::Error(s.to_string())
}

fn info(s: &str) -> HistoryLine {
    HistoryLine::Info(s.to_string())
}

fn cmd(prompt: &str, input: &str) -> HistoryLine {
    HistoryLine::Command { prompt: prompt.to_string(), input: input.to_string() }
}

#[test]
fn new_session_shows_banner_and_warnings() {
    let t = Terminal::new(vec!["w1".to_string(), "w2".to_string()], TitleBarMode::Custom, text_dir("/home"));
    assert_eq!(
        t.history,
        vec![
            HistoryLine::Banner("=== CozyMDT ===".to_string()),
            HistoryLine::Banner("  By FRANORDE   ".to_string()),
            err("w1"),
            err("w2"),
        ]
    );
    assert_eq!(t.current_shell, Shell::CozyT);
    assert_eq!(t.current_dir, text_dir("/home"));
    assert!(t.input.is_empty());
    assert!(t.focus_input);
    assert!(!t.is_running);
}

#[test]
fn hidden_title_bar_explains_how_to_close() {
    let t = Terminal::new(Vec::new(), TitleBarMode::Hidden, text_dir("."));
    assert_eq!(t.history.len(), 3);
    assert_eq!(t.history[2], info("Title bar is disabled — type 'exit' to close CozyMDT."));
}

#[test]
fn prompt_shows_directory_and_shell() {
    let mut t = fresh();
    assert_eq!(t.prompt(), r"C:\work [cozyt]> ");
    t.current_shell = Shell::PowerShell;
    assert_eq!(t.prompt(), r"C:\work [powershell]> ");
}

#[test]
fn empty_command_is_only_recorded() {
    let mut t = fresh();
    let req = t.run_command("");
    assert_eq!(req, Request::Idle);
    assert_eq!(t.history.last(), Some(&cmd(r"C:\work [cozyt]> ", "")));
}

#[test]
fn help_lists_the_builtins() {
    let mut t = fresh();
    assert_eq!(t.run_command("help"), Request::Idle);
    let n = t.history.len();
    assert_eq!(t.history[n - 7], cmd(r"C:\work [cozyt]> ", "help"));
    assert_eq!(t.history[n - 6], out("CozyT built-in commands:"));
    assert_eq!(t.history[n - 1], out("  cozyu    - uninstall CozyMDT"));
}

#[test]
fn version_is_printed() {
    let mut t = fresh();
    t.run_command("version");
    assert_eq!(t.history.last(), Some(&out("CozyMDT v0.1.0")));
}

#[test]
fn unknown_builtin_is_an_error() {
    let mut t = fresh();
    assert_eq!(t.run_command("dir"), Request::Idle);
    assert_eq!(t.history.last(), Some(&err("Unknown CozyT command: 'dir' (try 'help')")));
}

#[test]
fn switch_changes_shell() {
    let mut t = fresh();
    assert_eq!(t.run_command("switch  ps "), Request::Idle);
    assert_eq!(t.current_shell, Shell::PowerShell);
    assert_eq!(t.history.last(), Some(&info("Switched to powershell")));
    t.run_command("switch fish");
    assert_eq!(t.current_shell, Shell::PowerShell);
    assert_eq!(t.history.last(), Some(&err("Unknown shell: fish")));
}

#[test]
fn outside_shell_runs_the_line() {
    let mut t = fresh();
    t.run_command("switch cmd");
    let req = t.run_command("dir /b");
    assert_eq!(
        req,
        Request::Run {
            program: "cmd".to_string(),
            args: vec!["/C".to_string(), "dir /b".to_string()],
        }
    );
    assert!(t.is_running);
    assert_eq!(t.history.last(), Some(&cmd(r"C:\work [cmd]> ", "dir /b")));
}

#[test]
fn bash_runs_through_the_found_program() {
    let mut t = fresh();
    t.run_command("switch bash");
    match t.run_command("ls -la") {
        Request::Run { program, args, .. } => {
            assert_eq!(program, "bash");
            assert_eq!(args, vec!["-c".to_string(), "ls -la".to_string()]);
        },
        other => panic!("unexpected {:?}", other),
    }
}

#[test]
fn cd_to_a_directory_resolves_it_relative_to_the_current_one() {
    let mut t = fresh();
    let req = t.run_command("cd  projects ");
    assert_eq!(
        req,
        Request::Resolve {
            base: None,
            relative: Some("projects".to_string()),
            target: "projects".to_string(),
        }
    );
    let next = t.resume(Reply::Resolved {
        target: "projects".to_string(),
        outcome: Ok(text_dir(r"\\?\C:\work\projects")),
    });
    assert_eq!(next, Request::Idle);
    assert_eq!(t.current_dir, text_dir(r"C:\work\projects"));
}

#[test]
fn failed_cd_reports_and_stays() {
    let mut t = fresh();
    t.run_command("cd nowhere");
    t.resume(Reply::Resolved { target: "nowhere".to_string(), outcome: Err("not found".to_string()) });
    assert_eq!(t.current_dir, text_dir(r"C:\work"));
    assert_eq!(t.history.last(), Some(&err("cd: nowhere: not found")));
}

#[test]
fn bare_cd_goes_home_or_stays() {
    let mut t = fresh();
    assert_eq!(t.run_command("cd"), Request::LocateHome);
    assert_eq!(t.run_command("cd   "), Request::LocateHome);
    assert_eq!(
        t.resume(Reply::HomeLocated(Some(text_dir(r"C:\Users\me")))),
        Request::Resolve { base: Some(text_dir(r"C:\Users\me")), relative: None, target: String::new() }
    );
    assert_eq!(
        t.resume(Reply::HomeLocated(None)),
        Request::Resolve { base: None, relative: None, target: String::new() }
    );
}

#[test]
fn settings_creates_the_file_when_missing_then_opens_it() {
    let mut t = fresh();
    assert_eq!(t.run_command("settings"), Request::CheckSettings);
    let p = r"C:\app\settings.jsonc".to_string();
    assert_eq!(
        t.resume(Reply::SettingsChecked { path: p.clone(), exists: false }),
        Request::WriteSettings { path: p.clone(), contents: DEFAULT_SETTINGS.to_string() }
    );
    assert_eq!(
        t.resume(Reply::SettingsWritten { path: p.clone(), written: Ok(()) }),
        Request::OpenSettings { path: p.clone() }
    );
    assert_eq!(t.history.last(), Some(&info(r"Created default settings file at C:\app\settings.jsonc")));
    assert_eq!(t.resume(Reply::SettingsOpened(Ok(()))), Request::Idle);
    assert_eq!(t.history.last(), Some(&info("Restart CozyMDT after saving to apply changes.")));
}

#[test]
fn settings_opens_an_existing_file_directly() {
    let mut t = fresh();
    let p = "s.jsonc".to_string();
    assert_eq!(
        t.resume(Reply::SettingsChecked { path: p.clone(), exists: true }),
        Request::OpenSettings { path: p }
    );
    assert_eq!(t.resume(Reply::SettingsOpened(Err("no handler".to_string()))), Request::Idle);
    assert_eq!(t.history.last(), Some(&err("Could not open settings file: no handler")));
}

#[test]
fn failing_to_write_settings_stops() {
    let mut t = fresh();
    assert_eq!(
        t.resume(Reply::SettingsWritten { path: "p".to_string(), written: Err("read-only".to_string()) }),
        Request::Idle
    );
    assert_eq!(t.history.last(), Some(&err("Could not create settings file: read-only")));
}

#[test]
fn uninstall_asks_first() {
    let mut t = fresh();
    assert_eq!(
        t.run_command("cozyu"),
        Request::CheckInstall { in_home: vec!["bin".to_string(), "CozyMDT.exe".to_string()] }
    );
    let exe = r"C:\Users\me\bin\CozyMDT.exe".to_string();
    assert_eq!(
        t.resume(Reply::InstallChecked { exe: exe.clone(), installed: true }),
        Request::Confirm { exe: exe.clone() }
    );
    assert_eq!(t.history.last(), Some(&out("Are you sure you want to uninstall CozyMDT? (y/n)")));
    assert_eq!(
        t.resume(Reply::Answered { exe: exe.clone(), answer: " Y\n".to_string() }),
        Request::Remove { exe: exe.clone() }
    );
    assert_eq!(t.resume(Reply::Removed(Ok(()))), Request::Idle);
    assert_eq!(t.history.last(), Some(&info("CozyMDT has been uninstalled.")));
}

#[test]
fn uninstall_is_cancelled_by_anything_but_yes() {
    let mut t = fresh();
    for answer in ["n\n", "yes\n", "\n"] {
        assert_eq!(
            t.resume(Reply::Answered { exe: "e".to_string(), answer: answer.to_string() }),
            Request::Idle
        );
        assert_eq!(t.history.last(), Some(&info("Uninstall cancelled.")));
    }
}

#[test]
fn uninstall_reports_missing_install_and_failure() {
    let mut t = fresh();
    assert_eq!(t.resume(Reply::InstallChecked { exe: "e".to_string(), installed: false }), Request::Idle);
    assert_eq!(t.history.last(), Some(&info("CozyMDT is not installed.")));
    assert_eq!(t.resume(Reply::Removed(Err("in use".to_string()))), Request::Idle);
    assert_eq!(t.history.last(), Some(&err("Could not uninstall CozyMDT: in use")));
}

#[test]
fn output_is_appended_and_finish_clears_running() {
    let mut t = fresh();
    t.run_command("switch cmd");
    t.run_command("dir");
    let before = t.history.len();
    t.receive_output(vec!["a".to_string(), "b".to_string()], false);
    assert!(t.is_running);
    assert_eq!(t.history[before..].to_vec(), vec![out("a"), out("b")]);
    t.receive_output(Vec::new(), true);
    assert!(!t.is_running);
}

#[test]
fn ctrl_c_stops_a_running_command() {
    let mut t = fresh();
    t.is_running = true;
    assert!(t.interrupt());
    assert_eq!(t.history.last(), Some(&out("User interruption: CTRL+C")));
}

#[test]
fn ctrl_c_abandons_a_typed_line() {
    let mut t = fresh();
    t.input = "half typ".to_string();
    t.focus_input = false;
    assert!(!t.interrupt());
    assert!(t.input.is_empty());
    assert!(t.focus_input);
    assert_eq!(t.history.last(), Some(&cmd(r"C:\work [cozyt]> ", "half typ^C")));
    let n = t.history.len();
    assert!(!t.interrupt());
    assert_eq!(t.history.len(), n);
}

#[test]
fn exit_closes() {
    let mut t = fresh();
    t.input = "  exit ".to_string();
    assert_eq!(t.submit(), Submission::Exit);
    assert!(t.input.is_empty());
}

#[test]
fn enter_runs_the_trimmed_line() {
    let mut t = fresh();
    t.input = " version ".to_string();
    t.focus_input = false;
    assert_eq!(t.submit(), Submission::Proceed(Request::Idle));
    assert!(t.input.is_empty());
    assert!(t.focus_input);
    let n = t.history.len();
    assert_eq!(t.history[n - 2], cmd(r"C:\work [cozyt]> ", "version"));
    assert_eq!(t.history[n - 1], out("CozyMDT v0.1.0"));
}

#[test]
fn focus_is_claimed_once_and_not_while_running() {
    let mut t = fresh();
    assert!(t.claim_focus());
    assert!(!t.claim_focus());
    t.focus_input = true;
    t.is_running = true;
    assert!(!t.claim_focus());
    assert!(t.focus_input);
}

#[test]
fn builtins_outside_cozyt_are_none() {
    let mut t = fresh();
    assert_eq!(t.handle_cozyt_command("settings"), Some(Request::CheckSettings));
    assert_eq!(t.handle_cozyt_command("ls"), None);
}

#[test]
fn replies_only_add_to_history() {
    let mut t = fresh();
    let before = t.history.clone();
    t.resume(Reply::SettingsOpened(Err("x".to_string())));
    t.resume(Reply::HomeLocated(None));
    t.resume(Reply::Resolved { target: "a".to_string(), outcome: Ok(text_dir("/a")) });
    assert_eq!(t.history[..before.len()].to_vec(), before);
    assert_eq!(t.history.len(), before.len() + 1);
    assert_eq!(t.current_dir, text_dir("/a"));
}

#[test]
fn enter_is_ignored_while_a_command_runs() {
    let mut t = fresh();
    t.is_running = true;
    t.input = "exit".to_string();
    let before = t.clone();
    assert_eq!(t.submit(), Submission::Ignored);
    assert_eq!(t, before);
}

#[test]
fn a_directory_from_the_system_is_kept_exactly() {
    let start = DirPath { shown: "/data".to_string(), native: Some(std::path::PathBuf::from("/data")) };
    let mut t = Terminal::new(Vec::new(), TitleBarMode::Custom, start.clone());
    assert_eq!(t.prompt(), "/data [cozyt]> ");
    t.resume(Reply::Resolved { target: "x".to_string(), outcome: Ok(start.clone()) });
    assert_eq!(t.current_dir, start);
}
