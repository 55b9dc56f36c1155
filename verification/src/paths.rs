//! Paths: where the settings file lives, the directories the terminal
//! works in, and how the extended-length prefix that canonical Windows
//! paths carry is removed.

use vstd::prelude::*;

use crate::text::{starts_with, strip_prefix};

verus! {

/// The prefix that `std::fs::canonicalize` puts before a Windows path.
pub open spec fn verbatim_prefix() -> Seq<char> {
    "\\\\?\\"@
}

/// `path` without a leading `\\?\`, or `path` itself when it has none.
pub open spec fn without_verbatim_prefix(path: Seq<char>) -> Seq<char> {
    if starts_with(path, verbatim_prefix()) {
        path.skip(verbatim_prefix().len() as int)
    } else {
        path
    }
}

/// The operating system's path type, carried through the library as it is.
#[verifier::external_type_specification]
#[verifier::external_body]
pub struct ExPathBuf(std::path::PathBuf);

/// A directory as the terminal holds it: the text it is shown as, and,
/// where it came from the operating system, the path itself, whose name
/// need not be valid Unicode. Without `native`, the path is `shown`.
#[derive(Clone, Debug, PartialEq, Eq)]
pub struct DirPath {
    pub shown: String,
    pub native: Option<std::path::PathBuf>,
}

/// A directory as values.
pub struct DirPathView {
    pub shown: Seq<char>,
    pub native: Option<std::path::PathBuf>,
}

impl View for DirPath {
    type V = DirPathView;

    open spec fn view(&self) -> DirPathView {
        DirPathView { shown: self.shown@, native: self.native }
    }
}

/// A canonical directory without its `\\?\` prefix: such a path becomes
/// the text after the prefix (and the path made of that text); any other
/// directory stays exactly as it is.
pub open spec fn unc_stripped(path: DirPathView) -> DirPathView {
    if starts_with(path.shown, verbatim_prefix()) {
        DirPathView { shown: without_verbatim_prefix(path.shown), native: None }
    } else {
        path
    }
}

/// Removes the `\\?\` prefix from a canonical path, so that it reads as
/// the user would type it.
pub fn strip_unc_prefix(path: DirPath) -> (res: DirPath)
    ensures
        res@ == unc_stripped(path@),
{
    match strip_prefix(path.shown.as_str(), "\\\\?\\") {
        Some(stripped) => DirPath { shown: stripped.to_owned(), native: None },
        None => path,
    }
}

/// `s` ends with `suffix`.
pub open spec fn ends_with(s: Seq<char>, suffix: Seq<char>) -> bool {
    suffix.len() <= s.len() && s.subrange(s.len() - suffix.len(), s.len() as int) == suffix
}

/// A single path component naming an entry of a directory: not empty, not
/// `.` or `..`, and without a separator or a drive colon, so that it is a
/// relative path without a prefix on every platform.
pub open spec fn is_plain_file_name(name: Seq<char>) -> bool {
    &&& name.len() > 0
    &&& name != "."@
    &&& name != ".."@
    &&& forall|i: int| 0 <= i < name.len() ==> name[i] != '/' && name[i] != '\\' && name[i] != ':'
}

/// `dir` extended by `name`: joined directly (where `dir` is empty, ends
/// with a separator or is a bare drive such as `C:`) or with one separator
/// between them.
pub open spec fn joined_path(dir: Seq<char>, name: Seq<char>, path: Seq<char>) -> bool {
    ||| path == dir + name
    ||| path == dir + seq!['/'] + name
    ||| path == dir + seq!['\\'] + name
}

/// Extends the path `dir` by `name` with `std::path::PathBuf::push`, and
/// gives the result back as text. For a plain file name, a relative path,
/// `push` extends the directory: the result ends with the name and, unless
/// `dir` is a verbatim `\\?\` path, is `dir` followed by the name, with the
/// platform's separator between them where `dir` does not already end in
/// one. Which separator that is depends on the platform, and the
/// normalisation that `push` applies to verbatim paths is left unsaid.
#[verifier::external_body]
fn push_path(dir: &str, name: &str) -> (res: String)
    ensures
        is_plain_file_name(name@) ==> ends_with(res@, name@),
        is_plain_file_name(name@) && !starts_with(dir@, verbatim_prefix()) ==> joined_path(
            dir@,
            name@,
            res@,
        ),
{
    let mut path = std::path::PathBuf::from(dir);
    path.push(name);
    path.to_string_lossy().into_owned()
}

/// The name of the settings file.
pub open spec fn settings_file_name() -> Seq<char> {
    "settings.jsonc"@
}

/// The path of the settings file in the directory `dir`, which is the one
/// that holds the executable.
pub fn settings_path(dir: &str) -> (path: String)
    ensures
        ends_with(path@, settings_file_name()),
        !starts_with(dir@, verbatim_prefix()) ==> joined_path(dir@, settings_file_name(), path@),
{
    proof {
        reveal_strlit("settings.jsonc");
        reveal_strlit(".");
        reveal_strlit("..");
    }
    push_path(dir, "settings.jsonc")
}

/// A canonical `\\?\` path loses exactly its four prefix characters and
/// becomes a path made of the rest of its text; every other directory is
/// kept exactly, system path and all.
pub proof fn only_the_verbatim_prefix_is_removed(path: DirPathView)
    ensures
        starts_with(path.shown, seq!['\\', '\\', '?', '\\']) ==> unc_stripped(path) == (DirPathView {
            shown: path.shown.skip(4),
            native: None,
        }),
        !starts_with(path.shown, seq!['\\', '\\', '?', '\\']) ==> unc_stripped(path) == path,
{
    reveal_strlit("\\\\?\\");
    assert(verbatim_prefix() =~= seq!['\\', '\\', '?', '\\']);
}

} // verus!
