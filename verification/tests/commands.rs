use unity_project_runtime::commands::{
    deactivate_checked, ensure_no_active_sessions, recent_dir_resolution, normalized_workspace_id, register_unity_projects_from_dirs,
    requested_ui_workspace_id, sessions_for_workspace, RecentDirResolution,
};
use unity_project_runtime::error::AppError;
use unity_project_runtime::identity::resolve_project_identity;
use unity_project_runtime::registry::{UnityProjectIdentity, UnityProjectRegistry};

#[test]
fn sessions_for_workspace_filters_active_session_ids_by_workspace() {
    let target = "session-target".to_string();
    let other = "session-other".to_string();
    let global = "session-global".to_string();

    let active = sessions_for_workspace(
        "workspace-a",
        vec![
            (target.clone(), Some("workspace-a".to_string())),
            (other, Some("workspace-b".to_string())),
            (global, None),
        ],
    );

    assert_eq!(active, vec![target]);
}

#[test]
fn sessions_for_workspace_keeps_order_and_exact_matches() {
    let active = sessions_for_workspace(
        "ws",
        vec![
            ("s1".to_string(), Some("ws".to_string())),
            ("s2".to_string(), Some("ws ".to_string())),
            ("s3".to_string(), Some("ws".to_string())),
        ],
    );
    assert_eq!(active, vec!["s1".to_string(), "s3".to_string()]);
    assert!(sessions_for_workspace("ws", Vec::new()).is_empty());
}

#[test]
fn registers_unity_projects_from_recent_dirs() {
    let mut registry = UnityProjectRegistry::new();
    let plain_dir = "/tmp/recent/plain_dir".to_string();
    let unity_path = "/tmp/recent/unity_project".to_string();
    let plain = recent_dir_resolution(
        &plain_dir,
        false,
        Err(AppError::InvalidProject(plain_dir.clone())),
        10,
    );
    let unity = recent_dir_resolution(
        &unity_path,
        true,
        resolve_project_identity(unity_path.clone(), Ok("ws-unity".to_string())),
        10,
    );

    register_unity_projects_from_dirs(&mut registry, vec![plain, unity])
        .expect("register recent unity projects");

    let statuses = registry.project_snapshots();
    assert_eq!(statuses.len(), 1);
    assert_eq!(statuses[0].name, "unity_project");
    assert_eq!(statuses[0].project_path, unity_path);
}

#[test]
fn recent_dir_resolution_skips_blank_and_non_projects() {
    let ident = || UnityProjectIdentity {
        workspace_id: "w".to_string(),
        project_path: "/p/w".to_string(),
        name: "w".to_string(),
    };
    assert!(matches!(
        recent_dir_resolution("  \t", true, Err(AppError::PathEmpty), 1),
        RecentDirResolution::NotAProject
    ));
    assert!(matches!(
        recent_dir_resolution("/p/plain", false, Ok(ident()), 1),
        RecentDirResolution::NotAProject
    ));
    match recent_dir_resolution(" /p/w ", true, Ok(ident()), 7) {
        RecentDirResolution::Resolved { identity, seen_at_ms } => {
            assert_eq!(identity.workspace_id, "w");
            assert_eq!(seen_at_ms, 7);
        },
        _ => panic!("expected resolved"),
    }
    assert!(matches!(
        recent_dir_resolution("/p/w", true, Err(AppError::WorkspaceIdFailed("x".to_string())), 1),
        RecentDirResolution::Failed(AppError::WorkspaceIdFailed(_))
    ));
}

#[test]
fn recent_dirs_stop_at_first_failure() {
    let mut registry = UnityProjectRegistry::new();
    let first = UnityProjectIdentity {
        workspace_id: "one".to_string(),
        project_path: "/p/one".to_string(),
        name: "one".to_string(),
    };
    let third = UnityProjectIdentity {
        workspace_id: "three".to_string(),
        project_path: "/p/three".to_string(),
        name: "three".to_string(),
    };
    let result = register_unity_projects_from_dirs(
        &mut registry,
        vec![
            RecentDirResolution::Resolved { identity: first, seen_at_ms: 1 },
            RecentDirResolution::Failed(AppError::WorkspaceIdFailed("disk full".to_string())),
            RecentDirResolution::Resolved { identity: third, seen_at_ms: 3 },
        ],
    );
    match result {
        Err(AppError::WorkspaceIdFailed(reason)) => assert_eq!(reason, "disk full"),
        _ => panic!("expected the failure"),
    }
    let snapshots = registry.project_snapshots();
    assert_eq!(snapshots.len(), 1);
    assert_eq!(snapshots[0].workspace_id, "one");
}

#[test]
fn workspace_id_is_trimmed_and_required() {
    assert_eq!(normalized_workspace_id("  ws-1 \n").expect("id"), "ws-1");
    match normalized_workspace_id(" \t ") {
        Err(AppError::WorkspaceIdEmpty) => {},
        _ => panic!("expected empty id error"),
    }
    match normalized_workspace_id("") {
        Err(e) => assert_eq!(e.code(), "unity_project.workspace_id_empty"),
        Ok(_) => panic!("expected error"),
    }
}

#[test]
fn requested_focus_is_trimmed() {
    assert_eq!(requested_ui_workspace_id(Some(" ws ".to_string())), Some("ws".to_string()));
    assert_eq!(requested_ui_workspace_id(Some("\u{3000}".to_string())), None);
    assert_eq!(requested_ui_workspace_id(None), None);
}

#[test]
fn deactivation_refused_with_active_sessions() {
    assert!(ensure_no_active_sessions(Vec::new()).is_ok());
    let err = ensure_no_active_sessions(vec!["s1".to_string(), "s2".to_string()]).unwrap_err();
    assert_eq!(err.code(), "unity_project.active_sessions");
    assert_eq!(
        err.message(),
        "Unity project has active session runs and cannot be deactivated."
    );
    assert_eq!(err.detail(), Some("s1, s2".to_string()));
    assert_eq!(err.operation(), Some("deactivateUnityProject"));
    assert!(err.retryable());
}

#[test]
fn focus_command_reports_registry_focus() {
    let mut registry = UnityProjectRegistry::new();
    registry.register_project(
        UnityProjectIdentity {
            workspace_id: "ws".to_string(),
            project_path: "/p/ws".to_string(),
            name: "ws".to_string(),
        },
        1,
    );
    let requested = requested_ui_workspace_id(Some("\u{a0} ws \n".to_string()));
    registry.select_active_ui_project(requested.as_deref()).expect("select");
    assert_eq!(registry.active_ui_workspace_id(), requested);
    assert_eq!(requested_ui_workspace_id(requested.clone()), requested);
}

#[test]
fn deactivation_refuses_active_sessions_and_keeps_runtime() {
    let mut registry = UnityProjectRegistry::new();
    registry.register_project(
        UnityProjectIdentity {
            workspace_id: "ws".to_string(),
            project_path: "/p/ws".to_string(),
            name: "ws".to_string(),
        },
        1,
    );
    registry.activate_project("ws").expect("activate");

    match deactivate_checked(&mut registry, "ws", vec!["run-1".to_string()]) {
        Err(AppError::ActiveSessions(ids)) => assert_eq!(ids, vec!["run-1".to_string()]),
        _ => panic!("expected refusal"),
    }
    assert!(registry.is_activated("ws"));

    let runtime = deactivate_checked(&mut registry, "ws", Vec::new()).expect("deactivate");
    assert_eq!(runtime.expect("runtime").workspace_id, "ws");
    assert!(!registry.is_activated("ws"));
    assert!(registry.project_snapshot("ws").is_ok());

    match deactivate_checked(&mut registry, "other", Vec::new()) {
        Err(AppError::NotRegistered(id)) => assert_eq!(id, "other"),
        _ => panic!("expected not registered"),
    }
    match deactivate_checked(&mut registry, "other", vec!["run-2".to_string()]) {
        Err(AppError::ActiveSessions(_)) => {},
        _ => panic!("expected refusal first"),
    }
}

#[test]
fn focus_persists_until_next_successful_selection() {
    let mut registry = UnityProjectRegistry::new();
    let ident = |id: &str| UnityProjectIdentity {
        workspace_id: id.to_string(),
        project_path: format!("/p/{}", id),
        name: id.to_string(),
    };
    registry.register_project(ident("a"), 1);
    registry.select_active_ui_project(Some(" a ")).expect("select a");
    registry.register_project(ident("b"), 2);
    registry.register_project(ident("a"), 3);
    registry.activate_project("b").expect("activate b");
    registry.take_runtime("b").expect("take b");
    assert!(registry.select_active_ui_project(Some("missing")).is_err());
    assert_eq!(registry.active_ui_workspace_id(), Some("a".to_string()));
    registry.select_active_ui_project(Some("b")).expect("select b");
    assert_eq!(registry.active_ui_workspace_id(), Some("b".to_string()));
}
