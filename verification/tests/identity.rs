use unity_project_runtime::error::AppError;
use unity_project_runtime::identity::{
    canonical_unity_project_path, display_name_from_file_name, project_display_name,
    resolve_project_identity,
};
use unity_project_runtime::text::trimmed_non_empty;

#[test]
fn display_name_is_last_component() {
    assert_eq!(project_display_name("/home/me/Projects/MyGame"), "MyGame");
    assert_eq!(project_display_name("/home/me/Projects/My Game/"), "My Game");
    assert_eq!(project_display_name("relative"), "relative");
}

#[test]
fn display_name_falls_back_to_path() {
    assert_eq!(project_display_name("/"), "/");
    assert_eq!(project_display_name("/a/.."), "/a/..");
    assert_eq!(project_display_name(""), "");
}

#[test]
fn display_name_from_component_is_trimmed() {
    assert_eq!(display_name_from_file_name("/p/ Game ", Some(" Game ")), "Game");
    assert_eq!(display_name_from_file_name("/p/  ", Some("  ")), "/p/  ");
    assert_eq!(display_name_from_file_name("/", None), "/");
}

#[test]
fn canonical_path_checks() {
    match canonical_unity_project_path("   ", true, None) {
        Err(AppError::PathEmpty) => {},
        _ => panic!("expected empty path error"),
    }
    match canonical_unity_project_path("  /p/notunity ", false, None) {
        Err(AppError::InvalidProject(p)) => assert_eq!(p, "/p/notunity"),
        _ => panic!("expected invalid project"),
    }
    assert_eq!(
        canonical_unity_project_path(" /p/game ", true, Some("/real/p/game".to_string())).expect("ok"),
        "/real/p/game"
    );
    assert_eq!(canonical_unity_project_path(" /p/game ", true, None).expect("ok"), "/p/game");
}

#[test]
fn identity_resolution() {
    let identity = resolve_project_identity("/work/Racer".to_string(), Ok("id-1".to_string()))
        .expect("identity");
    assert_eq!(identity.workspace_id, "id-1");
    assert_eq!(identity.project_path, "/work/Racer");
    assert_eq!(identity.name, "Racer");

    match resolve_project_identity("/work/Racer".to_string(), Err("no config".to_string())) {
        Err(e) => {
            assert_eq!(e.code(), "unity_project.workspace_id_failed");
            assert_eq!(e.message(), "no config");
            assert_eq!(e.detail(), None);
        },
        Ok(_) => panic!("expected error"),
    }
}

#[test]
fn trimming_uses_unicode_white_space() {
    assert_eq!(trimmed_non_empty("\u{2003} a b \u{85}"), Some("a b".to_string()));
    assert_eq!(trimmed_non_empty(" \t\n "), None);
}

#[test]
fn error_codes_and_messages() {
    let e = AppError::NotRegistered("w".to_string());
    assert_eq!(e.code(), "unity_project.not_registered");
    assert_eq!(e.message(), "Unity project is not registered in Locus.");
    assert_eq!(e.detail(), Some("w".to_string()));
    assert!(!e.retryable());
    assert_eq!(e.operation(), None);

    let e = AppError::Inactive("w".to_string());
    assert_eq!(e.code(), "unity_project.inactive");
    assert_eq!(e.message(), "Unity project is registered but not activated in Locus.");

    let e = AppError::PathEmpty;
    assert_eq!(e.code(), "unity_project.path_empty");
    assert_eq!(e.message(), "Unity project path cannot be empty.");
    assert_eq!(e.detail(), None);

    let e = AppError::InvalidProject("/x".to_string());
    assert_eq!(e.code(), "unity_project.invalid_project");
    assert_eq!(e.message(), "Selected directory is not a Unity project.");
    assert_eq!(e.detail(), Some("/x".to_string()));

    let e = AppError::RegistryLockFailed("poisoned".to_string());
    assert_eq!(e.code(), "unity_project.registry_lock_failed");
    assert_eq!(e.message(), "Unity project registry lock error: poisoned");

    let e = AppError::RecentDirsFailed("no dir".to_string());
    assert_eq!(e.code(), "unity_project.recent_dirs_failed");
    assert_eq!(e.message(), "no dir");
}

#[test]
fn trimming_twice_changes_nothing() {
    let once = trimmed_non_empty("\u{2028}  name\u{3000}").expect("non-empty");
    assert_eq!(once, "name");
    assert_eq!(trimmed_non_empty(&once), Some(once.clone()));
}

#[test]
fn display_name_of_plain_paths() {
    assert_eq!(project_display_name("/home/dev/MyGame"), "MyGame");
    assert_eq!(project_display_name("tmp/foo.txt"), "foo.txt");
    assert_eq!(project_display_name("/usr/bin/"), "bin");
    assert_eq!(project_display_name("foo.txt/."), "foo.txt");
    assert_eq!(project_display_name("foo.txt/.//"), "foo.txt");
    assert_eq!(project_display_name("Game"), "Game");
    assert_eq!(project_display_name("/ws/ Spaced \t"), "Spaced");
    let identity = resolve_project_identity("/home/dev/MyGame".to_string(), Ok("w".to_string()))
        .expect("identity");
    assert_eq!(identity.name, "MyGame");
}
