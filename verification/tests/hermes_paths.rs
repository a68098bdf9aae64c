use relay_core::locks::{after_install_attempt, LockAttempt, LockStep, ALLOWLIST_CONTENTION};
use relay_core::hermes::paths::{
    hooks_path_for_launch, path_starts_with, same_path, user_config_path_with_override, PersistentPaths,
};

#[test]
fn user_config_path_uses_hermes_home_or_platform_home() {
    let default_home = "/users/relay";
    assert_eq!(
        user_config_path_with_override(false, default_home, None),
        "/users/relay/.hermes/config.yaml"
    );
    assert_eq!(
        user_config_path_with_override(false, default_home, Some("/profiles/hermes")),
        "/profiles/hermes/config.yaml"
    );
    assert_eq!(
        user_config_path_with_override(false, default_home, Some("")),
        "/users/relay/.hermes/config.yaml"
    );
}

#[test]
fn hermes_files_stand_beside_the_configuration() {
    let error = PersistentPaths::for_config(false, "/", None, "generation").unwrap_err();
    assert_eq!(error.message(), "Hermes config path / has no parent directory");
    let paths = PersistentPaths::for_config(false, "/h/config.yaml", Some("/h"), "generation").unwrap();
    assert_eq!(
        paths.all(),
        vec!["/h/config.yaml", "/h/shell-hooks-allowlist.json", "/h/generation"]
    );
    assert_eq!(paths.allowlist_lock(), "/h/shell-hooks-allowlist.json.lock");
    assert_eq!(PersistentPaths::install_lock(false, "/h"), "/h/.nemo-relay-operation.lock");
}

#[test]
fn paths_are_compared_by_their_components() {
    assert!(same_path(false, "/a//b/./c/", "/a/b/c"));
    assert!(!same_path(false, "/a/b", "a/b"));
    assert!(!same_path(false, "/a/b", "/a/c"));
    assert!(!same_path(false, "./a", "a"));
    assert!(path_starts_with(false, "/a/b/c", "/a/b"));
    assert!(path_starts_with(false, "/a/b", "/a/b/"));
    assert!(path_starts_with(false, "/a", "/"));
    assert!(!path_starts_with(false, "/ab", "/a"));
    assert!(!path_starts_with(false, "/a", "/a/b"));
}

#[test]
fn a_launch_uses_the_configured_file_or_the_home_directory() {
    assert_eq!(hooks_path_for_launch(false, Some("/c.yaml"), Some("/hh"), Some("/home")).unwrap(), "/c.yaml");
    assert_eq!(hooks_path_for_launch(false, None, Some("/hh"), Some("/home")).unwrap(), "/hh/config.yaml");
    assert_eq!(
        hooks_path_for_launch(false, None, Some(""), Some("/home")).unwrap(),
        "/home/.hermes/config.yaml"
    );
    let error = hooks_path_for_launch(false, None, None, None).unwrap_err();
    assert_eq!(error.message(), "could not resolve home directory for Hermes hooks");
}

#[test]
fn install_uses_the_native_hermes_allowlist_lock() {
    let paths = PersistentPaths::for_config(false, "/h/config.yaml", Some("/h"), "generation").unwrap();
    let lock = paths.allowlist_lock();
    assert_eq!(lock, "/h/shell-hooks-allowlist.json.lock");
    match after_install_attempt(Ok(LockAttempt::Contended), 0, &lock, ALLOWLIST_CONTENTION) {
        LockStep::Failed(error) => assert!(error.contains("shell-hook approval update"), "{error}"),
        step => panic!("{step:?}"),
    }
}

#[test]
fn paths_of_windows_have_two_separators_and_drives() {
    assert_eq!(
        user_config_path_with_override(true, r"C:\Users\relay", None),
        r"C:\Users\relay\.hermes\config.yaml"
    );
    assert_eq!(user_config_path_with_override(true, "", Some("D:")), "D:config.yaml");
    assert_eq!(user_config_path_with_override(true, "", Some("D:/")), "D:/config.yaml");
    let paths = PersistentPaths::for_config(true, r"C:\h\config.yaml", Some(r"C:\h"), "generation").unwrap();
    assert_eq!(paths.generation, r"C:\h\generation");
    assert!(same_path(true, r"c:\a\b", "C:/a//./b/"));
    assert!(!same_path(true, r"C:\a", r"D:\a"));
    assert!(!same_path(true, r"C:\a", "C:a"));
    assert!(!same_path(true, r"\\server\a", r"\server\a"));
    assert!(!same_path(false, r"a\b", "a/b"));
    assert!(path_starts_with(true, r"C:\a\b", "c:/a"));
    assert!(!path_starts_with(true, r"C:\ab", r"C:\a"));
}

#[test]
fn a_verbatim_path_is_taken_as_it_is_written() {
    assert!(same_path(true, r"\\?\C:\a\b", r"\\?\c:\a\\b\"));
    assert!(!same_path(true, r"\\?\C:\a\b", r"C:\a\b"));
    assert!(!same_path(true, r"\\?\C:\a\b", r"\\?\C:\a/b"));
    assert!(!same_path(true, r"\\?\C:\a\.\b", r"\\?\C:\a\b"));
    assert!(!path_starts_with(true, r"\\?\C:\a/b", r"\\?\C:\a"));
    assert!(path_starts_with(true, r"\\?\C:\a\b", r"\\?\C:\a"));
    assert!(!same_path(true, r"\\?\UNC\server\share\a", r"\\server\share\a"));
    assert!(same_path(true, r"\\?\UNC\server\share\a", r"\\?\UNC\server\share\a\"));
    assert!(!same_path(true, r"\\?\volume\a", r"\\?\volume/a"));
    // Written with slashes, the prefix is that of a share.
    assert!(same_path(true, r"//?/C:/a/./b", r"\\?/C:/a\b"));
    assert_eq!(
        user_config_path_with_override(true, "", Some(r"\\?\C:\h\\i\")),
        r"\\?\C:\h\i\config.yaml"
    );
    assert_eq!(user_config_path_with_override(true, "", Some(r"\\?\C:\h/")), r"\\?\C:\h/\config.yaml");
    assert_eq!(user_config_path_with_override(true, "", Some(r"\\?\C:")), r"\\?\C:\config.yaml");
}

#[test]
fn shares_and_devices_have_their_own_root() {
    assert!(same_path(true, r"\\server\share", r"//server/share/"));
    assert!(!same_path(true, r"\\server\share\a", r"\\server\other\a"));
    assert!(!path_starts_with(true, r"\\server\share\a", r"\\server"));
    assert!(path_starts_with(true, r"\\server\share\a", r"\\server\share"));
    assert!(same_path(true, r"\\.\COM42", r"\\./COM42/"));
    assert!(!same_path(true, r"\\.\COM42", r"\\?\COM42"));
    assert!(same_path(true, "C:./a", "C:a"));
    assert!(!same_path(true, "./a", "a"));
    assert!(!same_path(false, r"\", "/"));
    assert!(!same_path(false, r"\\?\C:\a", r"\\?\C:/a"));
    assert_eq!(
        user_config_path_with_override(true, "", Some(r"\\server\share")),
        r"\\server\share\config.yaml"
    );
}
