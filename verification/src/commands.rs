//! The decisions behind the user-facing commands on Unity projects:
//! request validation, registration of recently used directories, and the
//! refusal to deactivate a project that still has active sessions.

use std::sync::Arc;

use vstd::prelude::*;

use crate::error::{is_not_registered, string_views, AppError};
use crate::registry::{
    opt_view, runtime_view, ui_selection, ActivatedUnityProjectRuntime, RegistryModel,
    UnityProjectIdentity, UnityProjectRegistry,
};
use crate::text::{str_equal, trim_str, trimmed};

verus! {

/// A request to register (or open) the Unity project at a path.
pub struct RegisterUnityProjectRequest {
    pub project_path: String,
}

/// A request to activate a registered project.
pub struct ActivateUnityProjectRequest {
    pub workspace_id: String,
}

/// A request to deactivate an activated project.
pub struct DeactivateUnityProjectRequest {
    pub workspace_id: String,
}

/// A request to give the focus of the user interface to a project, or to
/// none.
pub struct SelectActiveUiUnityProjectRequest {
    pub workspace_id: Option<String>,
}

/// The project that has the focus of the user interface.
pub struct ActiveUiUnityProjectResult {
    pub workspace_id: Option<String>,
}

/// The workspace id of a request, trimmed; a `WorkspaceIdEmpty` error when
/// nothing but whitespace is given.
pub fn normalized_workspace_id(workspace_id: &str) -> (r: Result<String, AppError>)
    ensures
        match r {
            Ok(id) => trimmed(workspace_id@).len() > 0 && id@ == trimmed(workspace_id@),
            Err(e) => trimmed(workspace_id@).len() == 0 && e is WorkspaceIdEmpty,
        },
{
    let t = trim_str(workspace_id);
    if t.is_empty() {
        return Err(AppError::WorkspaceIdEmpty);
    }
    Ok(t.to_owned())
}

/// The project that a request to focus `workspace_id` designates: the
/// trimmed id, or none when no id or only whitespace is given.
pub fn requested_ui_workspace_id(workspace_id: Option<String>) -> (r: Option<String>)
    ensures
        opt_view(r) == ui_selection(opt_view(workspace_id)),
{
    match workspace_id {
        Some(s) => {
            let t = trim_str(s.as_str());
            if t.is_empty() {
                None
            } else {
                Some(t.to_owned())
            }
        },
        None => None,
    }
}

/// A session and the workspace it belongs to, if any.
pub open spec fn session_view(s: (String, Option<String>)) -> (Seq<char>, Option<Seq<char>>) {
    (s.0@, opt_view(s.1))
}

/// The ids of the sessions among `sessions` that belong to `workspace_id`,
/// in their order.
pub open spec fn sessions_of_workspace(
    sessions: Seq<(Seq<char>, Option<Seq<char>>)>,
    workspace_id: Seq<char>,
) -> Seq<Seq<char>>
    decreases sessions.len(),
{
    if sessions.len() == 0 {
        Seq::empty()
    } else {
        let prev = sessions_of_workspace(sessions.drop_last(), workspace_id);
        if sessions.last().1 == Some(workspace_id) {
            prev.push(sessions.last().0)
        } else {
            prev
        }
    }
}

/// The ids of the active sessions that belong to `workspace_id`, in the
/// order given. Each entry of `sessions` is a session id and the workspace
/// id that the session store records for it.
pub fn sessions_for_workspace(workspace_id: &str, sessions: Vec<(String, Option<String>)>) -> (r: Vec<
    String,
>)
    ensures
        string_views(r@) == sessions_of_workspace(
            sessions@.map_values(|s: (String, Option<String>)| session_view(s)),
            workspace_id@,
        ),
        forall|j: int|
            0 <= j < sessions@.len() && opt_view((#[trigger] sessions@[j]).1) == Some(workspace_id@)
                ==> string_views(r@).contains(sessions@[j].0@),
        forall|x: Seq<char>|
            #[trigger] string_views(r@).contains(x) ==> exists|j: int|
                0 <= j < sessions@.len() && opt_view((#[trigger] sessions@[j]).1) == Some(
                    workspace_id@,
                ) && sessions@[j].0@ == x,
{
    let ghost views = sessions@.map_values(|s: (String, Option<String>)| session_view(s));
    let mut active: Vec<String> = Vec::new();
    let mut i: usize = 0;
    while i < sessions.len()
        invariant
            i <= sessions@.len(),
            views == sessions@.map_values(|s: (String, Option<String>)| session_view(s)),
            string_views(active@) == sessions_of_workspace(views.take(i as int), workspace_id@),
        decreases sessions@.len() - i,
    {
        assert(views.take(i + 1).drop_last() =~= views.take(i as int));
        let belongs = match &sessions[i].1 {
            Some(ws) => str_equal(ws.as_str(), workspace_id),
            None => false,
        };
        if belongs {
            active.push(sessions[i].0.clone());
            assert(string_views(active@) =~= string_views(active@.drop_last()).push(active@.last()@));
        }
        i = i + 1;
    }
    assert(views.take(sessions@.len() as int) =~= views);
    proof {
        crate::laws::law_sessions_of_workspace_members(views, workspace_id@);
        assert forall|j: int|
            0 <= j < sessions@.len() && opt_view((#[trigger] sessions@[j]).1) == Some(workspace_id@)
                implies string_views(active@).contains(sessions@[j].0@) by {
            assert(views[j] == session_view(sessions@[j]));
        }
        assert forall|x: Seq<char>| #[trigger] string_views(active@).contains(x) implies exists|j: int|
            0 <= j < sessions@.len() && opt_view((#[trigger] sessions@[j]).1) == Some(workspace_id@)
                && sessions@[j].0@ == x by {
            let j = choose|j: int|
                0 <= j < views.len() && (#[trigger] views[j]).1 == Some(workspace_id@) && views[j].0 == x;
            assert(views[j] == session_view(sessions@[j]));
        }
    }
    active
}

/// Refuses a deactivation while `active_sessions` (the project's active
/// session runs) is not empty: an `ActiveSessions` error carrying them.
pub fn ensure_no_active_sessions(active_sessions: Vec<String>) -> (r: Result<(), AppError>)
    ensures
        match r {
            Ok(()) => active_sessions@.len() == 0,
            Err(e) => active_sessions@.len() > 0 && e == AppError::ActiveSessions(active_sessions),
        },
{
    if active_sessions.len() == 0 {
        Ok(())
    } else {
        Err(AppError::ActiveSessions(active_sessions))
    }
}

/// Deactivates the project `workspace_id` unless it still has active
/// session runs. With `active_sessions` (the project's active session
/// runs) not empty, this is an `ActiveSessions` error carrying them and the
/// registry is left as it was, the project still activated. Otherwise it
/// takes the runtime out as `take_runtime` does and returns it, for its
/// resources to be released.
pub fn deactivate_checked(
    registry: &mut UnityProjectRegistry,
    workspace_id: &str,
    active_sessions: Vec<String>,
) -> (r: Result<Option<Arc<ActivatedUnityProjectRuntime>>, AppError>)
    requires
        old(registry)@.wf(),
    ensures
        final(registry)@.wf(),
        active_sessions@.len() > 0 ==> final(registry)@ == old(registry)@ && (r matches Err(e)
            && e == AppError::ActiveSessions(active_sessions)),
        active_sessions@.len() == 0 ==> final(registry)@ == old(registry)@.runtime_taken(
            workspace_id@,
        ),
        active_sessions@.len() == 0 ==> match r {
            Ok(rt) => old(registry)@.holds(workspace_id@) && runtime_view(rt) == old(
                registry,
            )@.project(workspace_id@).runtime,
            Err(e) => !old(registry)@.holds(workspace_id@) && is_not_registered(e, workspace_id@),
        },
{
    match ensure_no_active_sessions(active_sessions) {
        Err(e) => Err(e),
        Ok(()) => registry.take_runtime(workspace_id),
    }
}

/// What became of one recently used directory when it was looked at.
pub enum RecentDirResolution {
    /// Blank, or not a Unity project: nothing to register.
    NotAProject,
    /// A Unity project with this identity, seen at this time.
    Resolved { identity: UnityProjectIdentity, seen_at_ms: u64 },
    /// Resolving its identity failed.
    Failed(AppError),
}

/// What a recently used directory `dir` comes to. `is_unity_project` is what
/// the project probe says of the trimmed directory; `resolved` is what
/// resolving the identity of `dir` gave, and `seen_at_ms` the time. A blank
/// directory, or one that is not a Unity project, is not a project;
/// otherwise the resolved identity, or the error of its resolution.
pub fn recent_dir_resolution(
    dir: &str,
    is_unity_project: bool,
    resolved: Result<UnityProjectIdentity, AppError>,
    seen_at_ms: u64,
) -> (r: RecentDirResolution)
    ensures
        trimmed(dir@).len() == 0 || !is_unity_project ==> r is NotAProject,
        trimmed(dir@).len() > 0 && is_unity_project ==> match resolved {
            Ok(identity) => r == (RecentDirResolution::Resolved { identity, seen_at_ms }),
            Err(e) => r == RecentDirResolution::Failed(e),
        },
{
    let t = trim_str(dir);
    if t.is_empty() || !is_unity_project {
        return RecentDirResolution::NotAProject;
    }
    match resolved {
        Ok(identity) => RecentDirResolution::Resolved { identity, seen_at_ms },
        Err(e) => RecentDirResolution::Failed(e),
    }
}

/// The workspace id that a directory resolved to, if it did.
pub open spec fn resolved_workspace_id(d: RecentDirResolution) -> Option<Seq<char>> {
    match d {
        RecentDirResolution::Resolved { identity, .. } => Some(identity.workspace_id@),
        _ => None,
    }
}

/// The registry after registering, in order, the resolved directories among
/// the first `n` of `dirs`.
pub open spec fn registered_dirs(m: RegistryModel, dirs: Seq<RecentDirResolution>, n: int) -> RegistryModel
    decreases n,
{
    if n <= 0 {
        m
    } else {
        let prev = registered_dirs(m, dirs, n - 1);
        match dirs[n - 1] {
            RecentDirResolution::Resolved { identity, seen_at_ms } => prev.registered(identity@, seen_at_ms),
            _ => prev,
        }
    }
}

/// None of the first `n` directories failed to resolve.
pub open spec fn none_failed(dirs: Seq<RecentDirResolution>, n: int) -> bool {
    forall|j: int| 0 <= j < n ==> !(#[trigger] dirs[j] is Failed)
}

/// Registration of `dirs` stopped at position `k`, whose identity could not
/// be resolved for the reason `e`: none before it failed, and the registry
/// went from `before` to `after` by registering the ones before it.
pub open spec fn stopped_at(
    dirs: Seq<RecentDirResolution>,
    k: int,
    e: AppError,
    before: RegistryModel,
    after: RegistryModel,
) -> bool {
    &&& 0 <= k < dirs.len()
    &&& none_failed(dirs, k)
    &&& dirs[k] == RecentDirResolution::Failed(e)
    &&& after == registered_dirs(before, dirs, k)
}

/// Registers the recently used directories that are Unity projects, in
/// order, and stops at the first one whose identity could not be resolved,
/// returning its error.
pub fn register_unity_projects_from_dirs(
    registry: &mut UnityProjectRegistry,
    dirs: Vec<RecentDirResolution>,
) -> (r: Result<(), AppError>)
    requires
        old(registry)@.wf(),
    ensures
        final(registry)@.wf(),
        match r {
            Ok(()) => none_failed(dirs@, dirs@.len() as int) && final(registry)@ == registered_dirs(
                old(registry)@,
                dirs@,
                dirs@.len() as int,
            ),
            Err(err) => exists|k: int|
                #[trigger] stopped_at(dirs@, k, err, old(registry)@, final(registry)@),
        },
        r is Ok ==> forall|x: Seq<char>|
            #[trigger] final(registry)@.holds(x) == (old(registry)@.holds(x) || exists|j: int|
                0 <= j < dirs@.len() && #[trigger] resolved_workspace_id(dirs@[j]) == Some(x)),
{
    let ghost all = dirs@;
    let ghost start = registry@;
    let mut rest = dirs;
    let total = rest.len();
    let mut i: usize = 0;
    while rest.len() > 0
        invariant
            i + rest@.len() == all.len(),
            all.len() == total,
            all == dirs@,
            start == old(registry)@,
            rest@ == all.skip(i as int),
            none_failed(all, i as int),
            registry@ == registered_dirs(start, all, i as int),
            registry@.wf(),
        decreases rest@.len(),
    {
        let d = rest.remove(0);
        assert(d == all[i as int]);
        let ghost before = registry@;
        match d {
            RecentDirResolution::NotAProject => {
                assert(registered_dirs(start, all, i + 1) == before);
            },
            RecentDirResolution::Resolved { identity, seen_at_ms } => {
                let ghost id_model = identity@;
                registry.register_project(identity, seen_at_ms);
                assert(registered_dirs(start, all, i + 1) == before.registered(id_model, seen_at_ms));
            },
            RecentDirResolution::Failed(e) => {
                assert(stopped_at(all, i as int, e, start, registry@));
                return Err(e);
            },
        }
        assert(rest@ =~= all.skip(i + 1));
        i = i + 1;
    }
    proof {
        crate::laws::law_recent_dirs_registered(start, all, all.len() as int);
    }
    Ok(())
}

} // verus!
