use cozymdt::paths::{settings_path, strip_unc_prefix, DirPath};
use std::path::PathBuf;

fn text(s: &str) -> DirPath {
    DirPath { shown: s.to_string(), native: None }
}

#[test]
fn strips_the_verbatim_prefix() {
    assert_eq!(strip_unc_prefix(text(r"\\?\C:\Users\me")), text(r"C:\Users\me"));
    assert_eq!(strip_unc_prefix(text(r"C:\Users\me")), text(r"C:\Users\me"));
    assert_eq!(strip_unc_prefix(text(r"\\server\share")), text(r"\\server\share"));
    assert_eq!(strip_unc_prefix(text(r"\\?\")), text(""));
}

#[test]
fn a_path_without_the_prefix_is_kept_as_the_system_gave_it() {
    let native = DirPath { shown: "/srv/data".to_string(), native: Some(PathBuf::from("/srv/data")) };
    assert_eq!(strip_unc_prefix(native.clone()), native);
    let verbatim =
        DirPath { shown: r"\\?\D:\x".to_string(), native: Some(PathBuf::from(r"\\?\D:\x")) };
    assert_eq!(strip_unc_prefix(verbatim), text(r"D:\x"));
}

#[test]
fn settings_file_sits_in_the_directory() {
    let p = settings_path("/opt/cozymdt");
    assert!(p.ends_with("settings.jsonc"));
    assert_eq!(p, "/opt/cozymdt/settings.jsonc");
    assert_eq!(settings_path("/opt/cozymdt/"), "/opt/cozymdt/settings.jsonc");
    assert_eq!(settings_path(""), "settings.jsonc");
}

#[test]
fn settings_path_extends_the_given_directory() {
    for dir in ["/a/b", "rel", "/", "x\\y"] {
        let p = settings_path(dir);
        assert!(
            p == format!("{}settings.jsonc", dir)
                || p == format!("{}/settings.jsonc", dir)
                || p == format!("{}\\settings.jsonc", dir)
        );
        assert!(p.starts_with(dir));
    }
}
