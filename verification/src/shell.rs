//! The shells a command can run in, and how each one is started.

use vstd::prelude::*;

use crate::text::str_eq;

verus! {

/// The shell that typed commands go to. `CozyT` is the terminal's own
/// built-in command set; the others are outside programs.
#[derive(Clone, Copy, Debug, PartialEq, Eq, Structural)]
pub enum Shell {
    PowerShell,
    Cmd,
    Bash,
    CozyT,
}

/// The name a shell is shown and selected by.
pub open spec fn shell_name(shell: Shell) -> Seq<char> {
    match shell {
        Shell::PowerShell => "powershell"@,
        Shell::Cmd => "cmd"@,
        Shell::Bash => "bash"@,
        Shell::CozyT => "cozyt"@,
    }
}

/// The shell that `switch <name>` selects, for a name already trimmed:
/// each shell's own name, and `ps` for PowerShell.
pub open spec fn shell_for_switch(name: Seq<char>) -> Option<Shell> {
    if name == "powershell"@ || name == "ps"@ {
        Some(Shell::PowerShell)
    } else if name == "cmd"@ {
        Some(Shell::Cmd)
    } else if name == "bash"@ {
        Some(Shell::Bash)
    } else if name == "cozyt"@ {
        Some(Shell::CozyT)
    } else {
        None
    }
}

/// The places where Git Bash or WSL's bash are usually installed, in the
/// order they are tried.
pub open spec fn bash_candidates() -> Seq<Seq<char>> {
    seq![
        "C:\\Program Files\\Git\\bin\\bash.exe"@,
        "C:\\Program Files (x86)\\Git\\bin\\bash.exe"@,
        "C:\\Windows\\System32\\bash.exe"@,
        "C:\\Windows\\SysWOW64\\bash.exe"@,
    ]
}

/// A program that `find_bash` may pick: one of the known locations, or the
/// bare name `bash` to be looked up on the search path.
pub open spec fn is_bash_choice(program: Seq<char>) -> bool {
    program == "bash"@ || exists|i: int| 0 <= i < bash_candidates().len() && bash_candidates()[i] == program
}

/// The flag that hands a command line to an outside shell.
pub open spec fn shell_flag(shell: Shell) -> Seq<char> {
    match shell {
        Shell::PowerShell => "-Command"@,
        Shell::Cmd => "/C"@,
        Shell::Bash => "-c"@,
        Shell::CozyT => Seq::empty(),
    }
}

/// Asks the file system whether `path` names an existing file or
/// directory, through `std::path::Path::exists`. Nothing is promised of
/// the answer: it depends on the disk at the moment of the call.
#[verifier::external_body]
fn path_exists(path: &str) -> bool {
    std::path::Path::new(path).exists()
}

/// The known bash locations, in the order they are tried.
fn bash_locations() -> (c: [&'static str; 4])
    ensures
        c@.map_values(|p: &str| p@) == bash_candidates(),
{
    let c: [&'static str; 4] = [
        "C:\\Program Files\\Git\\bin\\bash.exe",
        "C:\\Program Files (x86)\\Git\\bin\\bash.exe",
        "C:\\Windows\\System32\\bash.exe",
        "C:\\Windows\\SysWOW64\\bash.exe",
    ];
    assert(c@.map_values(|p: &str| p@) =~= bash_candidates());
    c
}

/// The first of the known locations, from the `i`-th on, that `found`
/// marks as existing, or `bash` when none is.
pub open spec fn first_found_from(found: Seq<bool>, i: nat) -> Seq<char>
    decreases 4 - i,
{
    if i >= 4 {
        "bash"@
    } else if found[i as int] {
        bash_candidates()[i as int]
    } else {
        first_found_from(found, i + 1)
    }
}

/// The first known location that `found` marks as existing (`found[i]`
/// tells whether `bash_candidates()[i]` exists), or `bash` when none is.
pub open spec fn first_found(found: Seq<bool>) -> Seq<char> {
    first_found_from(found, 0)
}

/// The program to run for bash, given which of the known locations exist:
/// the first that does, or the bare name `bash` to be looked up on the
/// search path.
pub fn pick_bash(found: [bool; 4]) -> (program: String)
    ensures
        program@ == first_found(found@),
        is_bash_choice(program@),
{
    let locations = bash_locations();
    let mut i: usize = 0;
    while i < 4
        invariant
            i <= 4,
            locations@.map_values(|p: &str| p@) == bash_candidates(),
            first_found(found@) == first_found_from(found@, i as nat),
        decreases 4 - i,
    {
        if found[i] {
            assert(bash_candidates()[i as int] == locations@[i as int]@);
            return locations[i].to_owned();
        }
        i = i + 1;
    }
    "bash".to_owned()
}

/// The first known bash location that exists, or `bash` when none does.
/// Each location is asked of the file system; which ones exist depends on
/// the disk, so the contract says that the result is what `pick_bash`
/// makes of some answer for each of the four.
pub fn find_bash() -> (program: String)
    ensures
        exists|found: Seq<bool>| found.len() == 4 && program@ == first_found(found),
        is_bash_choice(program@),
{
    let locations = bash_locations();
    let found: [bool; 4] = [
        path_exists(locations[0]),
        path_exists(locations[1]),
        path_exists(locations[2]),
        path_exists(locations[3]),
    ];
    pick_bash(found)
}

impl Shell {
    /// The name this shell is shown and selected by.
    pub fn name(&self) -> (res: &'static str)
        ensures
            res@ == shell_name(*self),
    {
        match self {
            Shell::PowerShell => "powershell",
            Shell::Cmd => "cmd",
            Shell::Bash => "bash",
            Shell::CozyT => "cozyt",
        }
    }

    /// The program that runs this shell and the flag that passes it a
    /// command line. `CozyT` has no outside program.
    pub fn program_and_flag(&self) -> (res: (String, &'static str))
        requires
            !(self is CozyT),
        ensures
            res.1@ == shell_flag(*self),
            *self is PowerShell ==> res.0@ == "powershell"@,
            *self is Cmd ==> res.0@ == "cmd"@,
            *self is Bash ==> is_bash_choice(res.0@),
    {
        match self {
            Shell::PowerShell => ("powershell".to_owned(), "-Command"),
            Shell::Cmd => ("cmd".to_owned(), "/C"),
            Shell::Bash => (find_bash(), "-c"),
            Shell::CozyT => vstd::pervasive::unreached(),
        }
    }

    /// The shell that `switch <name>` selects, for a trimmed name.
    pub fn from_switch_name(name: &str) -> (res: Option<Shell>)
        ensures
            res == shell_for_switch(name@),
    {
        if str_eq(name, "powershell") || str_eq(name, "ps") {
            Some(Shell::PowerShell)
        } else if str_eq(name, "cmd") {
            Some(Shell::Cmd)
        } else if str_eq(name, "bash") {
            Some(Shell::Bash)
        } else if str_eq(name, "cozyt") {
            Some(Shell::CozyT)
        } else {
            None
        }
    }
}

/// Selecting a shell by its own name gives that shell back.
pub proof fn switch_by_name_selects_that_shell(shell: Shell)
    ensures
        shell_for_switch(shell_name(shell)) == Some(shell),
{
    reveal_strlit("powershell");
    reveal_strlit("ps");
    reveal_strlit("cmd");
    reveal_strlit("bash");
    reveal_strlit("cozyt");
    assert("cmd"@.len() != "powershell"@.len() && "cmd"@.len() != "ps"@.len());
    assert("bash"@.len() != "powershell"@.len() && "bash"@.len() != "ps"@.len());
    assert("bash"@.len() != "cmd"@.len());
    assert("cozyt"@.len() != "powershell"@.len() && "cozyt"@.len() != "ps"@.len());
    assert("cozyt"@.len() != "cmd"@.len() && "cozyt"@.len() != "bash"@.len());
}

/// `ps` is a second name for PowerShell, and a name that is none of
/// `powershell`, `ps`, `cmd`, `bash` and `cozyt` selects no shell.
pub proof fn switch_names(name: Seq<char>)
    ensures
        shell_for_switch("ps"@) == Some(Shell::PowerShell),
        name != "powershell"@ && name != "ps"@ && name != "cmd"@ && name != "bash"@ && name
            != "cozyt"@ ==> shell_for_switch(name) is None,
{
    reveal_strlit("powershell");
    reveal_strlit("ps");
    assert("ps"@.len() != "powershell"@.len());
}

/// The bash lookup takes the first known location that exists, in the
/// order Git Bash (64-bit), Git Bash (32-bit), System32, SysWOW64, and the
/// bare name `bash` only where none does.
pub proof fn bash_lookup_takes_the_first_existing(found: Seq<bool>)
    requires
        found.len() == 4,
    ensures
        found[0] ==> first_found(found) == "C:\\Program Files\\Git\\bin\\bash.exe"@,
        !found[0] && found[1] ==> first_found(found)
            == "C:\\Program Files (x86)\\Git\\bin\\bash.exe"@,
        !found[0] && !found[1] && found[2] ==> first_found(found)
            == "C:\\Windows\\System32\\bash.exe"@,
        !found[0] && !found[1] && !found[2] && found[3] ==> first_found(found)
            == "C:\\Windows\\SysWOW64\\bash.exe"@,
        !found[0] && !found[1] && !found[2] && !found[3] ==> first_found(found) == "bash"@,
{
    reveal_with_fuel(first_found_from, 5);
}

} // verus!
