//! The status of a registered project as the user interface shows it: what
//! the registry knows, joined with what the Unity bridge reports.

use vstd::prelude::*;

use crate::registry::RegisteredUnityProjectSnapshot;

verus! {

/// The state of the Unity Editor process of a project.
#[derive(Debug, Clone, Copy, PartialEq, Eq, Structural)]
pub enum UnityEditorProcessState {
    Running,
    NotRunning,
    Unknown,
}

/// What the Unity bridge reports of a project.
#[derive(Debug)]
pub struct UnityConnectionStatus {
    /// The Locus bridge inside the editor is connected.
    pub connected: bool,
    /// The editor's own status text.
    pub editor_status: String,
    pub editor_process_state: UnityEditorProcessState,
}

/// The status of a registered project.
#[derive(Debug)]
pub struct UnityProjectStatus {
    pub workspace_id: String,
    pub project_path: String,
    pub name: String,
    pub activated: bool,
    pub editor_open: bool,
    pub bridge_connected: bool,
    pub editor_status: String,
    pub editor_process_state: UnityEditorProcessState,
    pub last_seen_at_ms: u64,
    pub connection_status: UnityConnectionStatus,
}

/// The status of the project of `snapshot`, whose bridge reported `status`:
/// the registry's fields from the snapshot, the editor counted open exactly
/// when its process runs, and the bridge's report both spread out and kept
/// whole.
pub fn status_for_snapshot(
    snapshot: RegisteredUnityProjectSnapshot,
    status: UnityConnectionStatus,
) -> (r: UnityProjectStatus)
    ensures
        r.workspace_id@ == snapshot.workspace_id@,
        r.project_path@ == snapshot.project_path@,
        r.name@ == snapshot.name@,
        r.activated == snapshot.activated,
        r.last_seen_at_ms == snapshot.last_seen_at_ms,
        r.editor_open == (status.editor_process_state == UnityEditorProcessState::Running),
        r.bridge_connected == status.connected,
        r.editor_status@ == status.editor_status@,
        r.editor_process_state == status.editor_process_state,
        r.connection_status == status,
{
    let editor_open = match status.editor_process_state {
        UnityEditorProcessState::Running => true,
        _ => false,
    };
    let editor_status = status.editor_status.clone();
    let editor_process_state = status.editor_process_state;
    let bridge_connected = status.connected;
    UnityProjectStatus {
        workspace_id: snapshot.workspace_id,
        project_path: snapshot.project_path,
        name: snapshot.name,
        activated: snapshot.activated,
        editor_open,
        bridge_connected,
        editor_status,
        editor_process_state,
        last_seen_at_ms: snapshot.last_seen_at_ms,
        connection_status: status,
    }
}

} // verus!
