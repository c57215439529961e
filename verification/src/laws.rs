//! Properties of the registry that span its operations.

use vstd::prelude::*;

use crate::registry::{
    lemma_update_keeps_wf, ProjectModel, lemma_activated_wf, lemma_index_of, lemma_registered_wf, lemma_runtime_taken_wf, snapshot_of,
    ui_selection, IdentityModel, RegistryModel,
};
use crate::commands::{
    registered_dirs, resolved_workspace_id, sessions_of_workspace, RecentDirResolution,
};
use crate::text::law_trim_idempotent;

verus! {

/// Changing one project leaves the position of every registered workspace
/// id as it was.
proof fn lemma_positions_kept(m: RegistryModel, n: RegistryModel, id: Seq<char>)
    requires
        m.wf(),
        n.wf(),
        m.holds(id),
        m.projects.len() == n.projects.len(),
        forall|k: int| 0 <= k < m.projects.len() ==> #[trigger] n.projects[k].workspace_id
            == m.projects[k].workspace_id,
    ensures
        n.holds(id),
        n.index_of(id) == m.index_of(id),
{
    let i = m.index_of(id);
    lemma_index_of(m, i);
    lemma_index_of(n, i);
}

/// Activation is idempotent: once a registered project is activated,
/// activating it again finds its runtime in place and changes nothing.
pub proof fn law_activation_is_idempotent(m: RegistryModel, id: Seq<char>)
    requires
        m.wf(),
        m.holds(id),
    ensures
        m.activated(id).is_activated(id),
        m.activated(id).activated(id) == m.activated(id),
{
    let n = m.activated(id);
    lemma_activated_wf(m, id);
    if m.project(id).runtime is None {
        lemma_positions_kept(m, n, id);
    }
}

/// The sessions of a workspace are exactly those recorded for it, whatever
/// other sessions (of other workspaces, or of none) stand before or after
/// them: every session recorded for `workspace_id` is listed, and every id
/// listed is that of a session recorded for `workspace_id`.
pub proof fn law_sessions_of_workspace_members(
    sessions: Seq<(Seq<char>, Option<Seq<char>>)>,
    workspace_id: Seq<char>,
)
    ensures
        forall|j: int|
            0 <= j < sessions.len() && (#[trigger] sessions[j]).1 == Some(workspace_id)
                ==> sessions_of_workspace(sessions, workspace_id).contains(sessions[j].0),
        forall|x: Seq<char>|
            #[trigger] sessions_of_workspace(sessions, workspace_id).contains(x) ==> exists|j: int|
                0 <= j < sessions.len() && (#[trigger] sessions[j]).1 == Some(workspace_id)
                    && sessions[j].0 == x,
        sessions_of_workspace(sessions, workspace_id).len() <= sessions.len(),
    decreases sessions.len(),
{
    if sessions.len() > 0 {
        let init = sessions.drop_last();
        law_sessions_of_workspace_members(init, workspace_id);
        let prev = sessions_of_workspace(init, workspace_id);
        let out = sessions_of_workspace(sessions, workspace_id);
        let last = sessions.last();
        assert forall|j: int|
            0 <= j < sessions.len() && (#[trigger] sessions[j]).1 == Some(workspace_id) implies out.contains(
            sessions[j].0,
        ) by {
            if j < sessions.len() - 1 {
                assert(init[j] == sessions[j]);
                let k = choose|k: int| 0 <= k < prev.len() && prev[k] == sessions[j].0;
                if last.1 == Some(workspace_id) {
                    assert(out[k] == prev[k]);
                }
            } else {
                assert(out[out.len() - 1] == last.0);
            }
        }
        assert forall|x: Seq<char>| #[trigger] out.contains(x) implies exists|j: int|
            0 <= j < sessions.len() && (#[trigger] sessions[j]).1 == Some(workspace_id)
                && sessions[j].0 == x by {
            let k = choose|k: int| 0 <= k < out.len() && out[k] == x;
            if k < prev.len() {
                assert(prev[k] == out[k]);
                assert(prev.contains(x));
                let j = choose|j: int|
                    0 <= j < init.len() && (#[trigger] init[j]).1 == Some(workspace_id) && init[j].0 == x;
                assert(sessions[j] == init[j]);
            } else {
                assert(sessions[sessions.len() - 1] == last);
            }
        }
    }
}

/// After registering `identity`, the registered workspace ids are those of
/// before and the identity's own.
pub proof fn law_registration_adds_exactly_its_id(
    m: RegistryModel,
    identity: IdentityModel,
    now: u64,
    x: Seq<char>,
)
    requires
        m.wf(),
    ensures
        m.registered(identity, now).holds(x) == (m.holds(x) || x == identity.workspace_id),
{
    reveal(RegistryModel::registered);
    let n = m.registered(identity, now);
    lemma_registered_wf(m, identity, now);
    if m.holds(identity.workspace_id) {
        let i = m.index_of(identity.workspace_id);
        let p = m.projects[i];
        lemma_update_keeps_wf(
            m,
            i,
            ProjectModel {
                workspace_id: p.workspace_id,
                project_path: identity.project_path,
                name: identity.name,
                last_seen_at_ms: now,
                runtime: p.runtime,
            },
        );
        assert(n.holds(x) == m.holds(x));
    } else {
        lemma_index_of(n, m.projects.len() as int);
        if m.holds(x) {
            let k = m.index_of(x);
            assert(n.projects[k] == m.projects[k]);
        }
        if n.holds(x) && x != identity.workspace_id {
            let k = n.index_of(x);
            assert(k < m.projects.len());
            assert(m.projects[k] == n.projects[k]);
        }
    }
}

/// After the first `n` directories, a project that one of them resolved to
/// carries the path and name of the last such directory, and its time.
pub proof fn law_recent_dirs_last_wins(
    m: RegistryModel,
    dirs: Seq<RecentDirResolution>,
    n: int,
    j: int,
)
    requires
        m.wf(),
        0 <= j < n <= dirs.len(),
        dirs[j] is Resolved,
        forall|l: int|
            j < l < n ==> #[trigger] resolved_workspace_id(dirs[l]) != resolved_workspace_id(dirs[j]),
    ensures
        ({
            let id = dirs[j]->identity@;
            let after = registered_dirs(m, dirs, n);
            &&& after.holds(id.workspace_id)
            &&& after.project(id.workspace_id).project_path == id.project_path
            &&& after.project(id.workspace_id).name == id.name
            &&& after.project(id.workspace_id).last_seen_at_ms == dirs[j]->seen_at_ms
        }),
    decreases n,
{
    let id = dirs[j]->identity@;
    law_recent_dirs_registered(m, dirs, n - 1);
    let prev = registered_dirs(m, dirs, n - 1);
    if n - 1 == j {
        law_registration_is_recorded(prev, id, dirs[j]->seen_at_ms);
    } else {
        law_recent_dirs_last_wins(m, dirs, n - 1, j);
        match dirs[n - 1] {
            RecentDirResolution::Resolved { identity, seen_at_ms } => {
                assert(resolved_workspace_id(dirs[n - 1]) != resolved_workspace_id(dirs[j]));
                law_registration_keeps_others(prev, identity@, seen_at_ms, id.workspace_id);
            },
            _ => {},
        }
    }
}

/// Registering recently used directories: after the first `n`, the
/// registry stays well-formed and holds exactly the projects it held
/// before and those that any of the first `n` directories resolved to.
pub proof fn law_recent_dirs_registered(m: RegistryModel, dirs: Seq<RecentDirResolution>, n: int)
    requires
        m.wf(),
        0 <= n <= dirs.len(),
    ensures
        registered_dirs(m, dirs, n).wf(),
        forall|x: Seq<char>|
            #[trigger] registered_dirs(m, dirs, n).holds(x) == (m.holds(x) || exists|j: int|
                0 <= j < n && #[trigger] resolved_workspace_id(dirs[j]) == Some(x)),
    decreases n,
{
    if n > 0 {
        law_recent_dirs_registered(m, dirs, n - 1);
        let prev = registered_dirs(m, dirs, n - 1);
        let cur = registered_dirs(m, dirs, n);
        match dirs[n - 1] {
            RecentDirResolution::Resolved { identity, seen_at_ms } => {
                lemma_registered_wf(prev, identity@, seen_at_ms);
                assert forall|x: Seq<char>| #[trigger] cur.holds(x) == (m.holds(x) || exists|j: int|
                    0 <= j < n && #[trigger] resolved_workspace_id(dirs[j]) == Some(x)) by {
                    law_registration_adds_exactly_its_id(prev, identity@, seen_at_ms, x);
                    if x == identity.workspace_id@ {
                        assert(resolved_workspace_id(dirs[n - 1]) == Some(x));
                    }
                    if exists|j: int| 0 <= j < n && #[trigger] resolved_workspace_id(dirs[j]) == Some(x) {
                        let j = choose|j: int|
                            0 <= j < n && #[trigger] resolved_workspace_id(dirs[j]) == Some(x);
                        if j < n - 1 {
                            assert(prev.holds(x));
                        }
                    }
                }
            },
            _ => {
                assert forall|x: Seq<char>| #[trigger] cur.holds(x) == (m.holds(x) || exists|j: int|
                    0 <= j < n && #[trigger] resolved_workspace_id(dirs[j]) == Some(x)) by {
                    if exists|j: int| 0 <= j < n && #[trigger] resolved_workspace_id(dirs[j]) == Some(x) {
                        let j = choose|j: int|
                            0 <= j < n && #[trigger] resolved_workspace_id(dirs[j]) == Some(x);
                        assert(j < n - 1);
                        assert(prev.holds(x));
                    }
                }
            },
        }
    }
}

/// The sessions of a workspace are the ids of the sessions recorded for it,
/// each as often and in the order they come.
pub proof fn law_sessions_of_workspace_is_filter(
    sessions: Seq<(Seq<char>, Option<Seq<char>>)>,
    workspace_id: Seq<char>,
)
    ensures
        sessions_of_workspace(sessions, workspace_id) == sessions.filter(
            |s: (Seq<char>, Option<Seq<char>>)| s.1 == Some(workspace_id),
        ).map_values(|s: (Seq<char>, Option<Seq<char>>)| s.0),
    decreases sessions.len(),
{
    reveal(Seq::filter);
    let pred = |s: (Seq<char>, Option<Seq<char>>)| s.1 == Some(workspace_id);
    if sessions.len() > 0 {
        law_sessions_of_workspace_is_filter(sessions.drop_last(), workspace_id);
        let f = sessions.drop_last().filter(pred);
        if pred(sessions.last()) {
            assert(f.push(sessions.last()).map_values(|s: (Seq<char>, Option<Seq<char>>)| s.0)
                =~= f.map_values(|s: (Seq<char>, Option<Seq<char>>)| s.0).push(sessions.last().0));
        }
    } else {
        assert(sessions.filter(pred).map_values(|s: (Seq<char>, Option<Seq<char>>)| s.0) =~= Seq::empty());
    }
}

/// Activating a project that is already activated changes nothing: its
/// runtime stays the one it has, whatever path the project has since been
/// registered under.
pub proof fn law_activating_activated_is_noop(m: RegistryModel, id: Seq<char>)
    requires
        m.is_activated(id),
    ensures
        m.activated(id) == m,
{
}

/// Each snapshot reports its own project: the same workspace id, path,
/// name and time, and `activated` exactly when the project has a runtime.
/// The focus of the user interface plays no part in it.
pub proof fn law_snapshots_report_runtime(m: RegistryModel, focus: Option<Seq<char>>)
    ensures
        m.snapshots().len() == m.projects.len(),
        forall|i: int|
            0 <= i < m.projects.len() ==> {
                &&& (#[trigger] m.snapshots()[i]).workspace_id == m.projects[i].workspace_id
                &&& m.snapshots()[i].project_path == m.projects[i].project_path
                &&& m.snapshots()[i].name == m.projects[i].name
                &&& m.snapshots()[i].last_seen_at_ms == m.projects[i].last_seen_at_ms
                &&& m.snapshots()[i].activated == (m.projects[i].runtime is Some)
            },
        m.focused(focus).snapshots() == m.snapshots(),
{
}

/// Activation makes a runtime for the project's own workspace id and path.
pub proof fn law_activation_runtime_matches_project(m: RegistryModel, id: Seq<char>)
    requires
        m.wf(),
        m.holds(id),
        !m.is_activated(id),
    ensures
        m.activated(id).project(id).runtime == Some(
            crate::registry::RuntimeModel {
                workspace_id: m.project(id).workspace_id,
                project_path: m.project(id).project_path,
            },
        ),
{
    let n = m.activated(id);
    lemma_activated_wf(m, id);
    lemma_positions_kept(m, n, id);
}

/// Deactivation releases the runtime but keeps the registration: the
/// project stays registered, is no longer activated, and its snapshot
/// differs only in the activation flag.
pub proof fn law_deactivation_keeps_registration(m: RegistryModel, id: Seq<char>)
    requires
        m.wf(),
        m.holds(id),
    ensures
        m.runtime_taken(id).holds(id),
        !m.runtime_taken(id).is_activated(id),
        snapshot_of(m.runtime_taken(id).project(id)) == (crate::registry::SnapshotModel {
            activated: false,
            ..snapshot_of(m.project(id))
        }),
{
    let n = m.runtime_taken(id);
    lemma_runtime_taken_wf(m, id);
    lemma_positions_kept(m, n, id);
}

/// Activating an inactive project and then taking its runtime out gives
/// back the registry as it was.
pub proof fn law_activate_then_deactivate_restores(m: RegistryModel, id: Seq<char>)
    requires
        m.wf(),
        m.holds(id),
        !m.is_activated(id),
    ensures
        m.activated(id).runtime_taken(id) == m,
{
    let n = m.activated(id);
    lemma_activated_wf(m, id);
    lemma_positions_kept(m, n, id);
    let i = m.index_of(id);
    assert(n.runtime_taken(id).projects =~= m.projects);
}

/// Deactivating a project that is not activated changes nothing.
pub proof fn law_deactivating_inactive_is_noop(m: RegistryModel, id: Seq<char>)
    requires
        m.wf(),
        !m.is_activated(id),
    ensures
        m.runtime_taken(id) == m,
{
    if m.holds(id) {
        assert(m.runtime_taken(id).projects =~= m.projects);
    }
}

/// Activating or deactivating one project leaves every other project, and
/// the focus, as they were.
pub proof fn law_activation_is_per_project(m: RegistryModel, id: Seq<char>, other: Seq<char>)
    requires
        m.wf(),
        other != id,
    ensures
        m.activated(id).holds(other) == m.holds(other),
        m.runtime_taken(id).holds(other) == m.holds(other),
        m.holds(other) ==> m.activated(id).project(other) == m.project(other),
        m.holds(other) ==> m.runtime_taken(id).project(other) == m.project(other),
        m.activated(id).active_ui_workspace_id == m.active_ui_workspace_id,
        m.runtime_taken(id).active_ui_workspace_id == m.active_ui_workspace_id,
{
    let a = m.activated(id);
    let t = m.runtime_taken(id);
    lemma_activated_wf(m, id);
    lemma_runtime_taken_wf(m, id);
    if m.holds(id) {
        let i = m.index_of(id);
        assert forall|k: int| 0 <= k < m.projects.len() implies #[trigger] a.projects[k].workspace_id
            == m.projects[k].workspace_id by {}
        assert forall|k: int| 0 <= k < m.projects.len() implies #[trigger] t.projects[k].workspace_id
            == m.projects[k].workspace_id by {}
        if m.holds(other) {
            lemma_positions_kept(m, a, other);
            lemma_positions_kept(m, t, other);
        } else {
            if a.holds(other) {
                let k = a.index_of(other);
                assert(m.projects[k].workspace_id == other);
            }
            if t.holds(other) {
                let k = t.index_of(other);
                assert(m.projects[k].workspace_id == other);
            }
        }
    }
}

/// The focus of the user interface is display only: changing it leaves the
/// projects, and so their activation, untouched.
pub proof fn law_focus_is_display_only(m: RegistryModel, focus: Option<Seq<char>>, id: Seq<char>)
    ensures
        m.focused(focus).projects == m.projects,
        m.focused(focus).is_activated(id) == m.is_activated(id),
{
}

/// Registering a project again keeps its activation, and with it the
/// runtime it had.
pub proof fn law_reregistration_keeps_activation(m: RegistryModel, identity: IdentityModel, now: u64)
    requires
        m.wf(),
        m.holds(identity.workspace_id),
    ensures
        m.registered(identity, now).project(identity.workspace_id).runtime == m.project(
            identity.workspace_id,
        ).runtime,
        m.registered(identity, now).is_activated(identity.workspace_id) == m.is_activated(
            identity.workspace_id,
        ),
        m.registered(identity, now).projects.len() == m.projects.len(),
{
    reveal(RegistryModel::registered);
    let n = m.registered(identity, now);
    lemma_registered_wf(m, identity, now);
    lemma_positions_kept(m, n, identity.workspace_id);
}

/// After registration, the project is known under its workspace id with
/// the path, name and time of that registration.
pub proof fn law_registration_is_recorded(m: RegistryModel, identity: IdentityModel, now: u64)
    requires
        m.wf(),
    ensures
        m.registered(identity, now).holds(identity.workspace_id),
        m.registered(identity, now).project(identity.workspace_id).project_path
            == identity.project_path,
        m.registered(identity, now).project(identity.workspace_id).name == identity.name,
        m.registered(identity, now).project(identity.workspace_id).last_seen_at_ms == now,
        !m.holds(identity.workspace_id) ==> !m.registered(identity, now).is_activated(
            identity.workspace_id,
        ),
{
    reveal(RegistryModel::registered);
    let n = m.registered(identity, now);
    lemma_registered_wf(m, identity, now);
    if m.holds(identity.workspace_id) {
        lemma_positions_kept(m, n, identity.workspace_id);
    } else {
        lemma_index_of(n, m.projects.len() as int);
    }
}

/// Registration never forgets a project, and leaves every other project
/// and the focus as they were.
pub proof fn law_registration_keeps_others(
    m: RegistryModel,
    identity: IdentityModel,
    now: u64,
    other: Seq<char>,
)
    requires
        m.wf(),
        m.holds(other),
        other != identity.workspace_id,
    ensures
        m.registered(identity, now).holds(other),
        m.registered(identity, now).project(other) == m.project(other),
        m.registered(identity, now).active_ui_workspace_id == m.active_ui_workspace_id,
{
    reveal(RegistryModel::registered);
    let n = m.registered(identity, now);
    lemma_registered_wf(m, identity, now);
    let i = m.index_of(other);
    lemma_index_of(m, i);
    lemma_index_of(n, i);
}

/// Every operation keeps a registry well-formed; giving the focus to a
/// registered project or to none does too.
pub proof fn law_operations_keep_wf(
    m: RegistryModel,
    identity: IdentityModel,
    now: u64,
    id: Seq<char>,
    focus: Option<Seq<char>>,
)
    requires
        m.wf(),
        focus matches Some(f) ==> m.holds(f),
    ensures
        m.registered(identity, now).wf(),
        m.activated(id).wf(),
        m.runtime_taken(id).wf(),
        m.focused(focus).wf(),
{
    lemma_registered_wf(m, identity, now);
    lemma_activated_wf(m, id);
    lemma_runtime_taken_wf(m, id);
}

/// One operation on the registry, as its model sees it.
pub enum RegistryOp {
    /// `register_project` with this identity and time.
    Register(IdentityModel, u64),
    /// `activate_project` of this workspace id.
    Activate(Seq<char>),
    /// `take_runtime` of this workspace id.
    TakeRuntime(Seq<char>),
    /// `select_active_ui_project` with this request.
    Select(Option<Seq<char>>),
}

/// The registry after `op`.
pub open spec fn apply_op(m: RegistryModel, op: RegistryOp) -> RegistryModel {
    match op {
        RegistryOp::Register(identity, now) => m.registered(identity, now),
        RegistryOp::Activate(id) => m.activated(id),
        RegistryOp::TakeRuntime(id) => m.runtime_taken(id),
        RegistryOp::Select(requested) => m.selected(requested),
    }
}

/// `op`, applied to `m`, is a focus request that succeeds.
pub open spec fn changes_focus(m: RegistryModel, op: RegistryOp) -> bool {
    op matches RegistryOp::Select(requested) && m.select_accepted(requested)
}

/// The registry after the operations `ops`, in order.
pub open spec fn apply_ops(m: RegistryModel, ops: Seq<RegistryOp>) -> RegistryModel
    decreases ops.len(),
{
    if ops.len() == 0 {
        m
    } else {
        apply_ops(apply_op(m, ops[0]), ops.drop_first())
    }
}

/// None of the operations `ops`, applied in order from `m`, is a focus
/// request that succeeds.
pub open spec fn no_focus_change(m: RegistryModel, ops: Seq<RegistryOp>) -> bool
    decreases ops.len(),
{
    if ops.len() == 0 {
        true
    } else {
        !changes_focus(m, ops[0]) && no_focus_change(apply_op(m, ops[0]), ops.drop_first())
    }
}

/// Registration, activation, taking a runtime out and a refused focus
/// request all leave the focus as it was.
pub proof fn law_focus_kept_by_op(m: RegistryModel, op: RegistryOp)
    requires
        !changes_focus(m, op),
    ensures
        apply_op(m, op).active_ui_workspace_id == m.active_ui_workspace_id,
{
    reveal(RegistryModel::registered);
}

/// The focus persists until the next focus request that succeeds: after a
/// successful request for `requested`, any operations that include no
/// successful focus request leave the focus at the trimmed id requested
/// (or none).
pub proof fn law_focus_persists(m: RegistryModel, requested: Option<Seq<char>>, ops: Seq<RegistryOp>)
    requires
        m.select_accepted(requested),
        no_focus_change(m.selected(requested), ops),
    ensures
        apply_ops(m.selected(requested), ops).active_ui_workspace_id == ui_selection(requested),
{
    lemma_focus_kept_by_ops(m.selected(requested), ops);
}

/// Operations that include no successful focus request keep the focus.
pub proof fn lemma_focus_kept_by_ops(m: RegistryModel, ops: Seq<RegistryOp>)
    requires
        no_focus_change(m, ops),
    ensures
        apply_ops(m, ops).active_ui_workspace_id == m.active_ui_workspace_id,
    decreases ops.len(),
{
    if ops.len() > 0 {
        law_focus_kept_by_op(m, ops[0]);
        lemma_focus_kept_by_ops(apply_op(m, ops[0]), ops.drop_first());
    }
}

/// A requested focus, once normalized, normalizes to itself: the id that
/// the focus command reports is the one the registry is asked to focus.
pub proof fn law_ui_selection_idempotent(requested: Option<Seq<char>>)
    ensures
        ui_selection(ui_selection(requested)) == ui_selection(requested),
{
    if let Some(s) = requested {
        law_trim_idempotent(s);
    }
}

} // verus!
