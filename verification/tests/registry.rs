use unity_project_runtime::error::AppError;
use unity_project_runtime::registry::{UnityProjectIdentity, UnityProjectRegistry};
use unity_project_runtime::status::{status_for_snapshot, UnityConnectionStatus, UnityEditorProcessState};

fn identity(workspace_id: &str, project_path: &str, name: &str) -> UnityProjectIdentity {
    UnityProjectIdentity {
        workspace_id: workspace_id.to_string(),
        project_path: project_path.to_string(),
        name: name.to_string(),
    }
}

fn registered_project() -> (UnityProjectRegistry, String) {
    let mut registry = UnityProjectRegistry::new();
    let workspace_id =
        registry.register_project(identity("2d9a8f42f0da40f2a22b9c4c93ce7d34", "/projects/Game", "Game"), 1000);
    (registry, workspace_id)
}

fn idle_status() -> UnityConnectionStatus {
    UnityConnectionStatus {
        connected: false,
        editor_status: "closed".to_string(),
        editor_process_state: UnityEditorProcessState::NotRunning,
    }
}

#[test]
fn activation_is_idempotent() {
    let (mut registry, workspace_id) = registered_project();

    assert!(registry.activate_project(&workspace_id).expect("activate"));
    assert!(!registry.activate_project(&workspace_id).expect("activate again"));
    assert!(registry.is_activated(&workspace_id));
}

#[test]
fn deactivation_releases_runtime_but_keeps_registration() {
    let (mut registry, workspace_id) = registered_project();
    registry.activate_project(&workspace_id).expect("activate");

    let runtime = registry.take_runtime(&workspace_id).expect("deactivate");
    assert!(runtime.is_some());

    assert!(!registry.is_activated(&workspace_id));
    let snapshot = registry
        .project_snapshot(&workspace_id)
        .expect("registered status remains available");
    let status = status_for_snapshot(snapshot, idle_status());
    assert_eq!(status.workspace_id, workspace_id);
    assert!(!status.activated);
}

#[test]
fn register_returns_workspace_id_and_records_identity() {
    let (registry, workspace_id) = registered_project();
    assert_eq!(workspace_id, "2d9a8f42f0da40f2a22b9c4c93ce7d34");
    let snapshot = registry.project_snapshot(&workspace_id).expect("snapshot");
    assert_eq!(snapshot.project_path, "/projects/Game");
    assert_eq!(snapshot.name, "Game");
    assert_eq!(snapshot.last_seen_at_ms, 1000);
    assert!(!snapshot.activated);
}

#[test]
fn reregistration_updates_identity_and_keeps_activation() {
    let (mut registry, workspace_id) = registered_project();
    registry.activate_project(&workspace_id).expect("activate");
    let again = registry.register_project(identity(&workspace_id, "/moved/Game2", "Game2"), 2000);
    assert_eq!(again, workspace_id);
    assert!(registry.is_activated(&workspace_id));
    let snapshots = registry.project_snapshots();
    assert_eq!(snapshots.len(), 1);
    assert_eq!(snapshots[0].project_path, "/moved/Game2");
    assert_eq!(snapshots[0].name, "Game2");
    assert_eq!(snapshots[0].last_seen_at_ms, 2000);
    assert!(snapshots[0].activated);
    let runtime = registry.activated_runtime(&workspace_id).expect("runtime");
    assert_eq!(runtime.workspace_id, workspace_id);
    assert_eq!(runtime.project_path, "/projects/Game");
}

#[test]
fn snapshots_follow_registration_order() {
    let mut registry = UnityProjectRegistry::new();
    registry.register_project(identity("b", "/p/b", "b"), 1);
    registry.register_project(identity("a", "/p/a", "a"), 2);
    registry.register_project(identity("b", "/p/b2", "b2"), 3);
    let snapshots = registry.project_snapshots();
    let ids: Vec<&str> = snapshots.iter().map(|s| s.workspace_id.as_str()).collect();
    assert_eq!(ids, vec!["b", "a"]);
    assert_eq!(snapshots[0].last_seen_at_ms, 3);
}

#[test]
fn activation_of_unknown_project_is_refused() {
    let mut registry = UnityProjectRegistry::new();
    match registry.activate_project("missing") {
        Err(AppError::NotRegistered(id)) => assert_eq!(id, "missing"),
        other => panic!("unexpected {:?}", other),
    }
    match registry.take_runtime("missing") {
        Err(AppError::NotRegistered(id)) => assert_eq!(id, "missing"),
        other => panic!("unexpected {:?}", other.map(|r| r.is_some())),
    }
    match registry.project_snapshot("missing") {
        Err(AppError::NotRegistered(id)) => assert_eq!(id, "missing"),
        _ => panic!("expected not registered"),
    }
    assert!(!registry.is_activated("missing"));
}

#[test]
fn activated_runtime_requires_activation() {
    let (mut registry, workspace_id) = registered_project();
    match registry.activated_runtime(&workspace_id) {
        Err(AppError::Inactive(id)) => assert_eq!(id, workspace_id),
        _ => panic!("expected inactive"),
    }
    match registry.activated_runtime("missing") {
        Err(AppError::Inactive(id)) => assert_eq!(id, "missing"),
        _ => panic!("expected inactive"),
    }
    registry.activate_project(&workspace_id).expect("activate");
    let runtime = registry.activated_runtime(&workspace_id).expect("runtime");
    assert_eq!(runtime.workspace_id, workspace_id);
    assert_eq!(runtime.project_path, "/projects/Game");
}

#[test]
fn deactivating_inactive_project_returns_no_runtime() {
    let (mut registry, workspace_id) = registered_project();
    assert!(registry.take_runtime(&workspace_id).expect("take").is_none());
    assert!(registry.project_snapshot(&workspace_id).is_ok());
}

#[test]
fn activate_then_deactivate_restores_snapshot() {
    let (mut registry, workspace_id) = registered_project();
    let before = registry.project_snapshot(&workspace_id).expect("snapshot");
    registry.activate_project(&workspace_id).expect("activate");
    registry.take_runtime(&workspace_id).expect("deactivate");
    let after = registry.project_snapshot(&workspace_id).expect("snapshot");
    assert_eq!(before.workspace_id, after.workspace_id);
    assert_eq!(before.project_path, after.project_path);
    assert_eq!(before.name, after.name);
    assert_eq!(before.last_seen_at_ms, after.last_seen_at_ms);
    assert_eq!(before.activated, after.activated);
}

#[test]
fn activation_is_per_project() {
    let mut registry = UnityProjectRegistry::new();
    registry.register_project(identity("a", "/p/a", "a"), 1);
    registry.register_project(identity("b", "/p/b", "b"), 1);
    registry.activate_project("a").expect("activate a");
    registry.activate_project("b").expect("activate b");
    registry.take_runtime("a").expect("deactivate a");
    assert!(!registry.is_activated("a"));
    assert!(registry.is_activated("b"));
}

#[test]
fn focus_selection_trims_and_checks_registration() {
    let (mut registry, workspace_id) = registered_project();
    registry.activate_project(&workspace_id).expect("activate");
    assert_eq!(registry.active_ui_workspace_id(), None);

    let padded = format!("  {}\t", workspace_id);
    registry.select_active_ui_project(Some(&padded)).expect("select");
    assert_eq!(registry.active_ui_workspace_id(), Some(workspace_id.clone()));
    assert!(registry.is_activated(&workspace_id));

    match registry.select_active_ui_project(Some(" other ")) {
        Err(AppError::NotRegistered(id)) => assert_eq!(id, "other"),
        _ => panic!("expected not registered"),
    }
    assert_eq!(registry.active_ui_workspace_id(), Some(workspace_id.clone()));

    registry.select_active_ui_project(Some("   ")).expect("blank clears");
    assert_eq!(registry.active_ui_workspace_id(), None);

    registry.select_active_ui_project(Some(&workspace_id)).expect("select");
    registry.select_active_ui_project(None).expect("none clears");
    assert_eq!(registry.active_ui_workspace_id(), None);
    assert!(registry.is_activated(&workspace_id));
}

#[test]
fn default_registry_is_empty() {
    let registry = UnityProjectRegistry::default();
    assert!(registry.project_snapshots().is_empty());
    assert_eq!(registry.active_ui_workspace_id(), None);
}

#[test]
fn status_reports_editor_open_when_running() {
    let (mut registry, workspace_id) = registered_project();
    registry.activate_project(&workspace_id).expect("activate");
    let snapshot = registry.project_snapshot(&workspace_id).expect("snapshot");
    let status = status_for_snapshot(
        snapshot,
        UnityConnectionStatus {
            connected: true,
            editor_status: "playing".to_string(),
            editor_process_state: UnityEditorProcessState::Running,
        },
    );
    assert!(status.activated);
    assert!(status.editor_open);
    assert!(status.bridge_connected);
    assert_eq!(status.editor_status, "playing");
    assert_eq!(status.editor_process_state, UnityEditorProcessState::Running);
    assert_eq!(status.name, "Game");
    assert_eq!(status.project_path, "/projects/Game");
    assert_eq!(status.last_seen_at_ms, 1000);
    assert!(status.connection_status.connected);

    let closed = status_for_snapshot(registry.project_snapshot(&workspace_id).expect("snapshot"), idle_status());
    assert!(!closed.editor_open);
    assert!(!closed.bridge_connected);
    assert_eq!(closed.editor_process_state, UnityEditorProcessState::NotRunning);
    let unknown = status_for_snapshot(
        registry.project_snapshot(&workspace_id).expect("snapshot"),
        UnityConnectionStatus {
            connected: true,
            editor_status: String::new(),
            editor_process_state: UnityEditorProcessState::Unknown,
        },
    );
    assert!(!unknown.editor_open);
}
