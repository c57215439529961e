//! The errors of the registry and of the commands around it.

use vstd::prelude::*;

verus! {

/// An error of the Unity project registry. Each variant carries the detail
/// that goes with it.
#[derive(Debug)]
pub enum AppError {
    /// No project with this workspace id is registered.
    NotRegistered(String),
    /// The project is registered but has no activated runtime.
    Inactive(String),
    /// The project path is empty once trimmed.
    PathEmpty,
    /// The directory (trimmed path) is not a Unity project.
    InvalidProject(String),
    /// The workspace id of a project could not be loaded or created; holds
    /// the reason.
    WorkspaceIdFailed(String),
    /// The workspace id is empty once trimmed.
    WorkspaceIdEmpty,
    /// The project still has active session runs; holds their ids.
    ActiveSessions(Vec<String>),
    /// The registry's lock could not be taken; holds the reason.
    RegistryLockFailed(String),
    /// The list of recent directories could not be read; holds the reason.
    RecentDirsFailed(String),
}

/// The machine-readable code of an error.
pub open spec fn error_code(e: AppError) -> Seq<char> {
    match e {
        AppError::NotRegistered(_) => "unity_project.not_registered"@,
        AppError::Inactive(_) => "unity_project.inactive"@,
        AppError::PathEmpty => "unity_project.path_empty"@,
        AppError::InvalidProject(_) => "unity_project.invalid_project"@,
        AppError::WorkspaceIdFailed(_) => "unity_project.workspace_id_failed"@,
        AppError::WorkspaceIdEmpty => "unity_project.workspace_id_empty"@,
        AppError::ActiveSessions(_) => "unity_project.active_sessions"@,
        AppError::RegistryLockFailed(_) => "unity_project.registry_lock_failed"@,
        AppError::RecentDirsFailed(_) => "unity_project.recent_dirs_failed"@,
    }
}

/// The human-readable message of an error.
pub open spec fn error_message(e: AppError) -> Seq<char> {
    match e {
        AppError::NotRegistered(_) => "Unity project is not registered in Locus."@,
        AppError::Inactive(_) => "Unity project is registered but not activated in Locus."@,
        AppError::PathEmpty => "Unity project path cannot be empty."@,
        AppError::InvalidProject(_) => "Selected directory is not a Unity project."@,
        AppError::WorkspaceIdFailed(reason) => reason@,
        AppError::WorkspaceIdEmpty => "Unity project workspace id cannot be empty."@,
        AppError::ActiveSessions(_) => "Unity project has active session runs and cannot be deactivated."@,
        AppError::RegistryLockFailed(reason) => "Unity project registry lock error: "@ + reason@,
        AppError::RecentDirsFailed(reason) => reason@,
    }
}

/// `e` says that no project is registered under `id`.
pub open spec fn is_not_registered(e: AppError, id: Seq<char>) -> bool {
    e matches AppError::NotRegistered(d) && d@ == id
}

/// `e` says that the project `id` is not activated.
pub open spec fn is_inactive(e: AppError, id: Seq<char>) -> bool {
    e matches AppError::Inactive(d) && d@ == id
}

/// The parts joined into one sequence, with `sep` between each two.
pub open spec fn joined(parts: Seq<Seq<char>>, sep: Seq<char>) -> Seq<char>
    decreases parts.len(),
{
    if parts.len() == 0 {
        Seq::empty()
    } else if parts.len() == 1 {
        parts[0]
    } else {
        joined(parts.drop_last(), sep) + sep + parts.last()
    }
}

/// The views of the strings in `v`.
pub open spec fn string_views(v: Seq<String>) -> Seq<Seq<char>> {
    v.map_values(|s: String| s@)
}

/// The detail that goes with an error, if it has one.
pub open spec fn error_detail(e: AppError) -> Option<Seq<char>> {
    match e {
        AppError::NotRegistered(id) => Some(id@),
        AppError::Inactive(id) => Some(id@),
        AppError::InvalidProject(path) => Some(path@),
        AppError::ActiveSessions(ids) => Some(joined(string_views(ids@), ", "@)),
        _ => None,
    }
}

/// The strings of `parts` joined with `sep` between each two.
pub fn join_strings(parts: &Vec<String>, sep: &str) -> (r: String)
    ensures
        r@ == joined(string_views(parts@), sep@),
{
    let ghost views = string_views(parts@);
    let mut out = String::new();
    let mut i: usize = 0;
    while i < parts.len()
        invariant
            i <= parts.len(),
            views == string_views(parts@),
            out@ == joined(views.take(i as int), sep@),
        decreases parts.len() - i,
    {
        assert(views.take(i + 1).drop_last() =~= views.take(i as int));
        if i > 0 {
            out.append(sep);
        }
        out.append(parts[i].as_str());
        assert(views.take(i + 1).last() == parts@[i as int]@);
        i = i + 1;
    }
    assert(views.take(parts.len() as int) =~= views);
    out
}

impl AppError {
    /// The machine-readable code of this error.
    pub fn code(&self) -> (r: &'static str)
        ensures
            r@ == error_code(*self),
    {
        match self {
            AppError::NotRegistered(_) => "unity_project.not_registered",
            AppError::Inactive(_) => "unity_project.inactive",
            AppError::PathEmpty => "unity_project.path_empty",
            AppError::InvalidProject(_) => "unity_project.invalid_project",
            AppError::WorkspaceIdFailed(_) => "unity_project.workspace_id_failed",
            AppError::WorkspaceIdEmpty => "unity_project.workspace_id_empty",
            AppError::ActiveSessions(_) => "unity_project.active_sessions",
            AppError::RegistryLockFailed(_) => "unity_project.registry_lock_failed",
            AppError::RecentDirsFailed(_) => "unity_project.recent_dirs_failed",
        }
    }

    /// The human-readable message of this error.
    pub fn message(&self) -> (r: String)
        ensures
            r@ == error_message(*self),
    {
        match self {
            AppError::NotRegistered(_) => "Unity project is not registered in Locus.".to_owned(),
            AppError::Inactive(_) => "Unity project is registered but not activated in Locus.".to_owned(),
            AppError::PathEmpty => "Unity project path cannot be empty.".to_owned(),
            AppError::InvalidProject(_) => "Selected directory is not a Unity project.".to_owned(),
            AppError::WorkspaceIdFailed(reason) => reason.clone(),
            AppError::WorkspaceIdEmpty => "Unity project workspace id cannot be empty.".to_owned(),
            AppError::ActiveSessions(_) => "Unity project has active session runs and cannot be deactivated.".to_owned(),
            AppError::RegistryLockFailed(reason) => {
                let mut m = "Unity project registry lock error: ".to_owned();
                m.append(reason.as_str());
                m
            },
            AppError::RecentDirsFailed(reason) => reason.clone(),
        }
    }

    /// The detail of this error: the workspace id, the path or the session
    /// ids (joined with ", ") that it concerns.
    pub fn detail(&self) -> (r: Option<String>)
        ensures
            match r {
                Some(d) => error_detail(*self) == Some(d@),
                None => error_detail(*self) is None,
            },
    {
        match self {
            AppError::NotRegistered(id) => Some(id.clone()),
            AppError::Inactive(id) => Some(id.clone()),
            AppError::InvalidProject(path) => Some(path.clone()),
            AppError::ActiveSessions(ids) => Some(join_strings(ids, ", ")),
            _ => None,
        }
    }

    /// The operation that failed, where the error names one.
    pub fn operation(&self) -> (r: Option<&'static str>)
        ensures
            match r {
                Some(op) => *self is ActiveSessions && op@ == "deactivateUnityProject"@,
                None => !(*self is ActiveSessions),
            },
    {
        match self {
            AppError::ActiveSessions(_) => Some("deactivateUnityProject"),
            _ => None,
        }
    }

    /// Whether retrying the same request later may succeed.
    pub fn retryable(&self) -> (r: bool)
        ensures
            r == (*self is ActiveSessions),
    {
        match self {
            AppError::ActiveSessions(_) => true,
            _ => false,
        }
    }
}

} // verus!
