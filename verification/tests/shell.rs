use cozymdt::shell::{find_bash, pick_bash, Shell};

#[test]
fn shell_names() {
    assert_eq!(Shell::PowerShell.name(), "powershell");
    assert_eq!(Shell::Cmd.name(), "cmd");
    assert_eq!(Shell::Bash.name(), "bash");
    assert_eq!(Shell::CozyT.name(), "cozyt");
}

#[test]
fn programs_and_flags() {
    assert_eq!(Shell::PowerShell.program_and_flag(), ("powershell".to_string(), "-Command"));
    assert_eq!(Shell::Cmd.program_and_flag(), ("cmd".to_string(), "/C"));
    let (program, flag) = Shell::Bash.program_and_flag();
    assert_eq!(flag, "-c");
    assert!(program == "bash" || program.ends_with("bash.exe"));
}

const LOCATIONS: [&str; 4] = [
    r"C:\Program Files\Git\bin\bash.exe",
    r"C:\Program Files (x86)\Git\bin\bash.exe",
    r"C:\Windows\System32\bash.exe",
    r"C:\Windows\SysWOW64\bash.exe",
];

#[test]
fn find_bash_gives_a_known_location_or_the_bare_name() {
    let program = find_bash();
    assert!(program == "bash" || LOCATIONS.contains(&program.as_str()));
}

#[test]
fn pick_bash_takes_the_first_location_found() {
    assert_eq!(pick_bash([true, true, true, true]), LOCATIONS[0]);
    assert_eq!(pick_bash([false, true, false, true]), LOCATIONS[1]);
    assert_eq!(pick_bash([false, false, true, false]), LOCATIONS[2]);
    assert_eq!(pick_bash([false, false, false, true]), LOCATIONS[3]);
}

#[test]
fn pick_bash_falls_back_to_the_bare_name() {
    assert_eq!(pick_bash([false, false, false, false]), "bash");
}

#[test]
fn switch_names_select_shells() {
    assert_eq!(Shell::from_switch_name("powershell"), Some(Shell::PowerShell));
    assert_eq!(Shell::from_switch_name("ps"), Some(Shell::PowerShell));
    assert_eq!(Shell::from_switch_name("cmd"), Some(Shell::Cmd));
    assert_eq!(Shell::from_switch_name("bash"), Some(Shell::Bash));
    assert_eq!(Shell::from_switch_name("cozyt"), Some(Shell::CozyT));
    assert_eq!(Shell::from_switch_name("zsh"), None);
    assert_eq!(Shell::from_switch_name("Bash"), None);
}

#[test]
fn switching_by_each_name_gives_that_shell() {
    for s in [Shell::PowerShell, Shell::Cmd, Shell::Bash, Shell::CozyT] {
        assert_eq!(Shell::from_switch_name(s.name()), Some(s));
    }
}
