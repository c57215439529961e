//! The registry of Unity projects: registration, activation of a
//! project-scoped runtime, its release, and the project that has the focus
//! of the user interface.

use std::sync::Arc;

use vstd::prelude::*;

use crate::error::{is_inactive, is_not_registered, AppError};
use crate::text::{str_equal, trim_str, trimmed};

verus! {

// ---------------------------------------------------------------------------
// Mathematical model
// ---------------------------------------------------------------------------

/// What an activated runtime was made for.
#[verifier::ext_equal]
pub struct RuntimeModel {
    pub workspace_id: Seq<char>,
    pub project_path: Seq<char>,
}

/// A registered project.
#[verifier::ext_equal]
pub struct ProjectModel {
    pub workspace_id: Seq<char>,
    pub project_path: Seq<char>,
    pub name: Seq<char>,
    pub last_seen_at_ms: u64,
    /// The activated runtime, if the project is activated.
    pub runtime: Option<RuntimeModel>,
}

/// The identity of a project as it was resolved from its directory.
#[verifier::ext_equal]
pub struct IdentityModel {
    pub workspace_id: Seq<char>,
    pub project_path: Seq<char>,
    pub name: Seq<char>,
}

/// A copy of what is known of a registered project.
#[verifier::ext_equal]
pub struct SnapshotModel {
    pub workspace_id: Seq<char>,
    pub project_path: Seq<char>,
    pub name: Seq<char>,
    pub last_seen_at_ms: u64,
    pub activated: bool,
}

/// The registry: its projects in the order of their first registration,
/// and the workspace id of the project that has the focus of the user
/// interface.
#[verifier::ext_equal]
pub struct RegistryModel {
    pub projects: Seq<ProjectModel>,
    pub active_ui_workspace_id: Option<Seq<char>>,
}

/// The snapshot of a registered project.
pub open spec fn snapshot_of(p: ProjectModel) -> SnapshotModel {
    SnapshotModel {
        workspace_id: p.workspace_id,
        project_path: p.project_path,
        name: p.name,
        last_seen_at_ms: p.last_seen_at_ms,
        activated: p.runtime is Some,
    }
}

/// The project that a request to focus `requested` designates: the trimmed
/// id, or none when nothing is requested or only whitespace.
pub open spec fn ui_selection(requested: Option<Seq<char>>) -> Option<Seq<char>> {
    match requested {
        Some(s) => if trimmed(s).len() > 0 { Some(trimmed(s)) } else { None },
        None => None,
    }
}

impl RegistryModel {
    /// The registry with no project and no focus.
    pub open spec fn empty() -> Self {
        RegistryModel { projects: Seq::empty(), active_ui_workspace_id: None }
    }

    /// A project with workspace id `id` is registered.
    pub open spec fn holds(self, id: Seq<char>) -> bool {
        exists|i: int| 0 <= i < self.projects.len() && #[trigger] self.projects[i].workspace_id == id
    }

    /// The position of the project with workspace id `id`.
    pub open spec fn index_of(self, id: Seq<char>) -> int {
        choose|i: int| 0 <= i < self.projects.len() && #[trigger] self.projects[i].workspace_id == id
    }

    /// The project with workspace id `id` (meaningful where `holds(id)`).
    pub open spec fn project(self, id: Seq<char>) -> ProjectModel {
        self.projects[self.index_of(id)]
    }

    /// The project with workspace id `id` is registered and activated.
    pub open spec fn is_activated(self, id: Seq<char>) -> bool {
        self.holds(id) && self.project(id).runtime is Some
    }

    /// Well-formedness: workspace ids are unique, a runtime belongs to the
    /// workspace of its project, and the focused project is registered.
    pub open spec fn wf(self) -> bool {
        &&& forall|i: int, j: int|
            0 <= i < j < self.projects.len() ==> #[trigger] self.projects[i].workspace_id
                != #[trigger] self.projects[j].workspace_id
        &&& forall|i: int|
            0 <= i < self.projects.len() ==> ((#[trigger] self.projects[i]).runtime matches Some(
                r,
            ) ==> r.workspace_id == self.projects[i].workspace_id)
        &&& self.active_ui_workspace_id matches Some(a) ==> self.holds(a)
    }

    /// The registry after `identity` was registered at time `now`: a known
    /// project gets the new path, name and time and keeps its runtime; a new
    /// one is appended, not activated.
    #[verifier::opaque]
    pub open spec fn registered(self, identity: IdentityModel, now: u64) -> Self {
        if self.holds(identity.workspace_id) {
            let i = self.index_of(identity.workspace_id);
            let p = self.projects[i];
            RegistryModel {
                projects: self.projects.update(
                    i,
                    ProjectModel {
                        workspace_id: p.workspace_id,
                        project_path: identity.project_path,
                        name: identity.name,
                        last_seen_at_ms: now,
                        runtime: p.runtime,
                    },
                ),
                active_ui_workspace_id: self.active_ui_workspace_id,
            }
        } else {
            RegistryModel {
                projects: self.projects.push(
                    ProjectModel {
                        workspace_id: identity.workspace_id,
                        project_path: identity.project_path,
                        name: identity.name,
                        last_seen_at_ms: now,
                        runtime: None,
                    },
                ),
                active_ui_workspace_id: self.active_ui_workspace_id,
            }
        }
    }

    /// The registry after activating `id`: a registered project without a
    /// runtime gets one made for its workspace id and path; otherwise
    /// nothing changes.
    pub open spec fn activated(self, id: Seq<char>) -> Self {
        if self.holds(id) && self.project(id).runtime is None {
            let i = self.index_of(id);
            let p = self.projects[i];
            RegistryModel {
                projects: self.projects.update(
                    i,
                    ProjectModel {
                        workspace_id: p.workspace_id,
                        project_path: p.project_path,
                        name: p.name,
                        last_seen_at_ms: p.last_seen_at_ms,
                        runtime: Some(
                            RuntimeModel { workspace_id: p.workspace_id, project_path: p.project_path },
                        ),
                    },
                ),
                active_ui_workspace_id: self.active_ui_workspace_id,
            }
        } else {
            self
        }
    }

    /// The registry after the runtime of `id` was taken out: a registered
    /// project keeps everything but its runtime.
    pub open spec fn runtime_taken(self, id: Seq<char>) -> Self {
        if self.holds(id) {
            let i = self.index_of(id);
            let p = self.projects[i];
            RegistryModel {
                projects: self.projects.update(
                    i,
                    ProjectModel {
                        workspace_id: p.workspace_id,
                        project_path: p.project_path,
                        name: p.name,
                        last_seen_at_ms: p.last_seen_at_ms,
                        runtime: None,
                    },
                ),
                active_ui_workspace_id: self.active_ui_workspace_id,
            }
        } else {
            self
        }
    }

    /// The registry with `focus` as the focused project.
    pub open spec fn focused(self, focus: Option<Seq<char>>) -> Self {
        RegistryModel { projects: self.projects, active_ui_workspace_id: focus }
    }

    /// A request to focus `requested` succeeds: it designates no project, or
    /// a registered one.
    pub open spec fn select_accepted(self, requested: Option<Seq<char>>) -> bool {
        match ui_selection(requested) {
            Some(id) => self.holds(id),
            None => true,
        }
    }

    /// The registry after a request to focus `requested`: the designated
    /// focus when the request succeeds, the registry unchanged when not.
    pub open spec fn selected(self, requested: Option<Seq<char>>) -> Self {
        if self.select_accepted(requested) {
            self.focused(ui_selection(requested))
        } else {
            self
        }
    }

    /// The snapshots of all projects, in registration order.
    pub open spec fn snapshots(self) -> Seq<SnapshotModel> {
        self.projects.map_values(|p: ProjectModel| snapshot_of(p))
    }
}

/// In a well-formed registry, the project at position `i` is the one its
/// workspace id designates.
pub proof fn lemma_index_of(m: RegistryModel, i: int)
    requires
        m.wf(),
        0 <= i < m.projects.len(),
    ensures
        m.holds(m.projects[i].workspace_id),
        m.index_of(m.projects[i].workspace_id) == i,
{
    let id = m.projects[i].workspace_id;
    assert(m.holds(id));
    let j = m.index_of(id);
    if j < i {
        assert(m.projects[j].workspace_id != m.projects[i].workspace_id);
    } else if i < j {
        assert(m.projects[i].workspace_id != m.projects[j].workspace_id);
    }
}

/// Replacing a project by one with the same workspace id whose runtime, if
/// any, belongs to that workspace keeps a registry well-formed and every
/// workspace id registered.
pub proof fn lemma_update_keeps_wf(m: RegistryModel, i: int, p: ProjectModel)
    requires
        m.wf(),
        0 <= i < m.projects.len(),
        p.workspace_id == m.projects[i].workspace_id,
        p.runtime matches Some(r) ==> r.workspace_id == p.workspace_id,
    ensures
        (RegistryModel { projects: m.projects.update(i, p), active_ui_workspace_id: m.active_ui_workspace_id }).wf(),
        forall|id: Seq<char>|
            #[trigger] (RegistryModel { projects: m.projects.update(i, p), active_ui_workspace_id: m.active_ui_workspace_id }).holds(id)
                == m.holds(id),
{
    let n = RegistryModel { projects: m.projects.update(i, p), active_ui_workspace_id: m.active_ui_workspace_id };
    assert forall|k: int| 0 <= k < m.projects.len() implies #[trigger] n.projects[k].workspace_id
        == m.projects[k].workspace_id by {}
    assert forall|id: Seq<char>| #[trigger] n.holds(id) == m.holds(id) by {
        if m.holds(id) {
            let k = m.index_of(id);
            assert(n.projects[k].workspace_id == id);
        }
        if n.holds(id) {
            let k = n.index_of(id);
            assert(m.projects[k].workspace_id == id);
        }
    }
}

/// Registering keeps a registry well-formed.
pub proof fn lemma_registered_wf(m: RegistryModel, identity: IdentityModel, now: u64)
    requires
        m.wf(),
    ensures
        m.registered(identity, now).wf(),
{
    reveal(RegistryModel::registered);
    if m.holds(identity.workspace_id) {
        let i = m.index_of(identity.workspace_id);
        let p = m.projects[i];
        lemma_update_keeps_wf(
            m,
            i,
            ProjectModel {
                workspace_id: p.workspace_id,
                project_path: identity.project_path,
                name: identity.name,
                last_seen_at_ms: now,
                runtime: p.runtime,
            },
        );
    } else {
        let n = m.registered(identity, now);
        assert forall|k: int| 0 <= k < m.projects.len() implies #[trigger] n.projects[k]
            == m.projects[k] by {}
        if let Some(a) = m.active_ui_workspace_id {
            let k = m.index_of(a);
            assert(n.projects[k].workspace_id == a);
        }
        assert forall|i: int, j: int|
            0 <= i < j < n.projects.len() implies #[trigger] n.projects[i].workspace_id
                != #[trigger] n.projects[j].workspace_id by {
            if j == m.projects.len() {
                assert(m.projects[i].workspace_id != identity.workspace_id);
            }
        }
    }
}

/// Activating keeps a registry well-formed.
pub proof fn lemma_activated_wf(m: RegistryModel, id: Seq<char>)
    requires
        m.wf(),
    ensures
        m.activated(id).wf(),
{
    if m.holds(id) && m.project(id).runtime is None {
        let i = m.index_of(id);
        let p = m.projects[i];
        lemma_update_keeps_wf(
            m,
            i,
            ProjectModel {
                workspace_id: p.workspace_id,
                project_path: p.project_path,
                name: p.name,
                last_seen_at_ms: p.last_seen_at_ms,
                runtime: Some(RuntimeModel { workspace_id: p.workspace_id, project_path: p.project_path }),
            },
        );
    }
}

/// Taking a runtime out keeps a registry well-formed.
pub proof fn lemma_runtime_taken_wf(m: RegistryModel, id: Seq<char>)
    requires
        m.wf(),
    ensures
        m.runtime_taken(id).wf(),
{
    if m.holds(id) {
        let i = m.index_of(id);
        let p = m.projects[i];
        lemma_update_keeps_wf(
            m,
            i,
            ProjectModel {
                workspace_id: p.workspace_id,
                project_path: p.project_path,
                name: p.name,
                last_seen_at_ms: p.last_seen_at_ms,
                runtime: None,
            },
        );
    }
}

// ---------------------------------------------------------------------------
// Executable types
// ---------------------------------------------------------------------------

/// The project-scoped runtime of an activated project.
pub struct ActivatedUnityProjectRuntime {
    pub workspace_id: String,
    pub project_path: String,
}

impl View for ActivatedUnityProjectRuntime {
    type V = RuntimeModel;

    open spec fn view(&self) -> RuntimeModel {
        RuntimeModel { workspace_id: self.workspace_id@, project_path: self.project_path@ }
    }
}

impl ActivatedUnityProjectRuntime {
    fn new(workspace_id: String, project_path: String) -> (r: Self)
        ensures
            r@ == (RuntimeModel { workspace_id: workspace_id@, project_path: project_path@ }),
    {
        ActivatedUnityProjectRuntime { workspace_id, project_path }
    }
}

/// The model of an optional shared runtime.
pub open spec fn runtime_view(r: Option<Arc<ActivatedUnityProjectRuntime>>) -> Option<RuntimeModel> {
    match r {
        Some(rt) => Some(rt@),
        None => None,
    }
}

/// `Arc::clone`: a new handle to the same value.
#[verifier::external_body]
fn arc_clone<T>(a: &Arc<T>) -> (r: Arc<T>)
    ensures
        r == *a,
{
    Arc::clone(a)
}

struct RegisteredUnityProject {
    workspace_id: String,
    project_path: String,
    name: String,
    last_seen_at_ms: u64,
    activated_runtime: Option<Arc<ActivatedUnityProjectRuntime>>,
}

impl View for RegisteredUnityProject {
    type V = ProjectModel;

    closed spec fn view(&self) -> ProjectModel {
        ProjectModel {
            workspace_id: self.workspace_id@,
            project_path: self.project_path@,
            name: self.name@,
            last_seen_at_ms: self.last_seen_at_ms,
            runtime: runtime_view(self.activated_runtime),
        }
    }
}

/// The identity of a Unity project: its workspace id, canonical path and
/// display name.
pub struct UnityProjectIdentity {
    pub workspace_id: String,
    pub project_path: String,
    pub name: String,
}

impl View for UnityProjectIdentity {
    type V = IdentityModel;

    open spec fn view(&self) -> IdentityModel {
        IdentityModel {
            workspace_id: self.workspace_id@,
            project_path: self.project_path@,
            name: self.name@,
        }
    }
}

/// A copy of what the registry knows of one project.
pub struct RegisteredUnityProjectSnapshot {
    pub workspace_id: String,
    pub project_path: String,
    pub name: String,
    pub last_seen_at_ms: u64,
    pub activated: bool,
}

impl View for RegisteredUnityProjectSnapshot {
    type V = SnapshotModel;

    open spec fn view(&self) -> SnapshotModel {
        SnapshotModel {
            workspace_id: self.workspace_id@,
            project_path: self.project_path@,
            name: self.name@,
            last_seen_at_ms: self.last_seen_at_ms,
            activated: self.activated,
        }
    }
}

/// The Unity projects known to the application, kept in order of first
/// registration, each workspace id at most once (see `RegistryModel::wf`),
/// and the workspace id of the focused project.
pub struct UnityProjectRegistry {
    projects: Vec<RegisteredUnityProject>,
    active_ui_workspace_id: Option<String>,
}

impl Default for UnityProjectRegistry {
    /// The empty registry.
    fn default() -> (r: Self)
        ensures
            r@ == RegistryModel::empty(),
    {
        UnityProjectRegistry::new()
    }
}

/// The model of an optional string slice.
pub open spec fn opt_str_view(s: Option<&str>) -> Option<Seq<char>> {
    match s {
        Some(v) => Some(v@),
        None => None,
    }
}

/// The model of an optional string.
pub open spec fn opt_view(s: Option<String>) -> Option<Seq<char>> {
    match s {
        Some(v) => Some(v@),
        None => None,
    }
}

impl View for UnityProjectRegistry {
    type V = RegistryModel;

    closed spec fn view(&self) -> RegistryModel {
        RegistryModel {
            projects: Seq::new(self.projects@.len(), |i: int| self.projects@[i]@),
            active_ui_workspace_id: opt_view(self.active_ui_workspace_id),
        }
    }
}

impl UnityProjectRegistry {
    /// The registry holds no project and no project has the focus.
    pub fn new() -> (r: Self)
        ensures
            r@ == RegistryModel::empty(),
            r@.wf(),
    {
        UnityProjectRegistry { projects: Vec::new(), active_ui_workspace_id: None }
    }

    /// The position of the project with workspace id `workspace_id`.
    fn find(&self, workspace_id: &str) -> (r: Option<usize>)
        requires
            self@.wf(),
        ensures
            match r {
                Some(i) => i < self.projects@.len() && self@.holds(workspace_id@) && i
                    == self@.index_of(workspace_id@),
                None => !self@.holds(workspace_id@),
            },
    {
        let mut i: usize = 0;
        while i < self.projects.len()
            invariant
                i <= self.projects@.len(),
                self@.wf(),
                forall|j: int| 0 <= j < i ==> self@.projects[j].workspace_id != workspace_id@,
            decreases self.projects@.len() - i,
        {
            if str_equal(self.projects[i].workspace_id.as_str(), workspace_id) {
                proof {
                    lemma_index_of(self@, i as int);
                }
                return Some(i);
            }
            i = i + 1;
        }
        None
    }

    /// Registers `identity`, seen at `now_ms`, and returns its workspace id.
    /// A project already registered under that id takes the new path, name
    /// and time and keeps its activation.
    pub fn register_project(&mut self, identity: UnityProjectIdentity, now_ms: u64) -> (r: String)
        requires
            old(self)@.wf(),
        ensures
            r@ == identity.workspace_id@,
            final(self)@ == old(self)@.registered(identity@, now_ms),
            final(self)@.wf(),
    {
        let ghost old_model = self@;
        reveal(RegistryModel::registered);
        let id = identity.workspace_id.clone();
        match self.find(identity.workspace_id.as_str()) {
            Some(i) => {
                self.projects[i].project_path = identity.project_path;
                self.projects[i].name = identity.name;
                self.projects[i].last_seen_at_ms = now_ms;
                proof {
                    lemma_registered_wf(old_model, identity@, now_ms);
                    assert(self@.projects =~= old_model.registered(identity@, now_ms).projects);
                }
            },
            None => {
                self.projects.push(
                    RegisteredUnityProject {
                        workspace_id: identity.workspace_id,
                        project_path: identity.project_path,
                        name: identity.name,
                        last_seen_at_ms: now_ms,
                        activated_runtime: None,
                    },
                );
                proof {
                    lemma_registered_wf(old_model, identity@, now_ms);
                    assert(self@.projects =~= old_model.registered(identity@, now_ms).projects);
                }
            },
        }
        id
    }

    /// The workspace id of the project that has the focus of the user
    /// interface.
    pub fn active_ui_workspace_id(&self) -> (r: Option<String>)
        ensures
            opt_view(r) == self@.active_ui_workspace_id,
    {
        match &self.active_ui_workspace_id {
            Some(id) => Some(id.clone()),
            None => None,
        }
    }

    /// Whether the project `workspace_id` is registered and activated.
    pub fn is_activated(&self, workspace_id: &str) -> (r: bool)
        requires
            self@.wf(),
        ensures
            r == self@.is_activated(workspace_id@),
    {
        match self.find(workspace_id) {
            Some(i) => self.projects[i].activated_runtime.is_some(),
            None => false,
        }
    }

    /// The runtime of the activated project `workspace_id`; an `Inactive`
    /// error when the project is not registered or not activated.
    pub fn activated_runtime(&self, workspace_id: &str) -> (r: Result<
        Arc<ActivatedUnityProjectRuntime>,
        AppError,
    >)
        requires
            self@.wf(),
        ensures
            match r {
                Ok(rt) => self@.is_activated(workspace_id@) && self@.project(workspace_id@).runtime
                    == Some(rt@),
                Err(e) => !self@.is_activated(workspace_id@) && is_inactive(e, workspace_id@),
            },
    {
        if let Some(i) = self.find(workspace_id) {
            if let Some(rt) = &self.projects[i].activated_runtime {
                return Ok(arc_clone(rt));
            }
        }
        Err(AppError::Inactive(workspace_id.to_owned()))
    }

    /// Activates the project `workspace_id`: returns `true` when a runtime
    /// was made for it now, `false` when it already had one (and nothing
    /// changes); a `NotRegistered` error, and no change, when no such
    /// project is registered.
    pub fn activate_project(&mut self, workspace_id: &str) -> (r: Result<bool, AppError>)
        requires
            old(self)@.wf(),
        ensures
            final(self)@ == old(self)@.activated(workspace_id@),
            final(self)@.wf(),
            old(self)@.is_activated(workspace_id@) ==> final(self)@ == old(self)@,
            r matches Ok(false) ==> final(self)@ == old(self)@,
            match r {
                Ok(created) => old(self)@.holds(workspace_id@) && created == (old(self)@.project(
                    workspace_id@,
                ).runtime is None),
                Err(e) => !old(self)@.holds(workspace_id@) && is_not_registered(e, workspace_id@),
            },
    {
        let ghost old_model = self@;
        proof {
            lemma_activated_wf(old_model, workspace_id@);
        }
        match self.find(workspace_id) {
            None => Err(AppError::NotRegistered(workspace_id.to_owned())),
            Some(i) => {
                if self.projects[i].activated_runtime.is_none() {
                    let runtime = ActivatedUnityProjectRuntime::new(
                        self.projects[i].workspace_id.clone(),
                        self.projects[i].project_path.clone(),
                    );
                    self.projects[i].activated_runtime = Some(Arc::new(runtime));
                    proof {
                        assert(self@.projects =~= old_model.activated(workspace_id@).projects);
                    }
                    Ok(true)
                } else {
                    Ok(false)
                }
            },
        }
    }

    /// Takes the runtime out of the project `workspace_id`, which stays
    /// registered; returns the runtime it had. A `NotRegistered` error, and
    /// no change, when no such project is registered.
    pub fn take_runtime(&mut self, workspace_id: &str) -> (r: Result<
        Option<Arc<ActivatedUnityProjectRuntime>>,
        AppError,
    >)
        requires
            old(self)@.wf(),
        ensures
            final(self)@ == old(self)@.runtime_taken(workspace_id@),
            final(self)@.wf(),
            match r {
                Ok(rt) => old(self)@.holds(workspace_id@) && runtime_view(rt) == old(self)@.project(
                    workspace_id@,
                ).runtime,
                Err(e) => !old(self)@.holds(workspace_id@) && is_not_registered(e, workspace_id@),
            },
    {
        let ghost old_model = self@;
        proof {
            lemma_runtime_taken_wf(old_model, workspace_id@);
        }
        match self.find(workspace_id) {
            None => Err(AppError::NotRegistered(workspace_id.to_owned())),
            Some(i) => {
                let rt = self.projects[i].activated_runtime.take();
                proof {
                    assert(self@.projects =~= old_model.runtime_taken(workspace_id@).projects);
                }
                Ok(rt)
            },
        }
    }

    /// Gives the focus of the user interface to the project `workspace_id`
    /// (trimmed), or to none when `workspace_id` is `None` or only
    /// whitespace. A `NotRegistered` error, and no change, when the trimmed
    /// id names no registered project.
    pub fn select_active_ui_project(&mut self, workspace_id: Option<&str>) -> (r: Result<
        (),
        AppError,
    >)
        requires
            old(self)@.wf(),
        ensures
            final(self)@.wf(),
            final(self)@ == old(self)@.selected(opt_str_view(workspace_id)),
            r is Ok == old(self)@.select_accepted(opt_str_view(workspace_id)),
            ({
                let requested = match workspace_id {
                    Some(s) => Some(s@),
                    None => None,
                };
                match ui_selection(requested) {
                    Some(id) => if old(self)@.holds(id) {
                        r is Ok && final(self)@ == old(self)@.focused(Some(id))
                    } else {
                        final(self)@ == old(self)@ && (r matches Err(e) && is_not_registered(e, id))
                    },
                    None => r is Ok && final(self)@ == old(self)@.focused(None),
                }
            }),
    {
        let selected = match workspace_id {
            Some(s) => {
                let t = trim_str(s);
                if t.is_empty() {
                    None
                } else {
                    Some(t)
                }
            },
            None => None,
        };
        match selected {
            Some(id) => {
                if self.find(id).is_some() {
                    self.active_ui_workspace_id = Some(id.to_owned());
                    Ok(())
                } else {
                    Err(AppError::NotRegistered(id.to_owned()))
                }
            },
            None => {
                self.active_ui_workspace_id = None;
                Ok(())
            },
        }
    }

    /// The snapshot of the project `workspace_id`; a `NotRegistered` error
    /// when no such project is registered.
    pub fn project_snapshot(&self, workspace_id: &str) -> (r: Result<
        RegisteredUnityProjectSnapshot,
        AppError,
    >)
        requires
            self@.wf(),
        ensures
            match r {
                Ok(s) => self@.holds(workspace_id@) && s@ == snapshot_of(
                    self@.project(workspace_id@),
                ),
                Err(e) => !self@.holds(workspace_id@) && is_not_registered(e, workspace_id@),
            },
    {
        match self.find(workspace_id) {
            Some(i) => Ok(project_snapshot(&self.projects[i])),
            None => Err(AppError::NotRegistered(workspace_id.to_owned())),
        }
    }

    /// The snapshots of all registered projects, in registration order.
    pub fn project_snapshots(&self) -> (r: Vec<RegisteredUnityProjectSnapshot>)
        ensures
            r@.map_values(|s: RegisteredUnityProjectSnapshot| s@) == self@.snapshots(),
            r@.len() == self@.projects.len(),
            forall|i: int|
                0 <= i < r@.len() ==> {
                    &&& (#[trigger] r@[i]).workspace_id@ == self@.projects[i].workspace_id
                    &&& r@[i].project_path@ == self@.projects[i].project_path
                    &&& r@[i].name@ == self@.projects[i].name
                    &&& r@[i].last_seen_at_ms == self@.projects[i].last_seen_at_ms
                    &&& r@[i].activated == (self@.projects[i].runtime is Some)
                },
    {
        let mut out: Vec<RegisteredUnityProjectSnapshot> = Vec::new();
        let mut i: usize = 0;
        while i < self.projects.len()
            invariant
                i <= self.projects@.len(),
                out@.len() == i,
                forall|k: int| 0 <= k < i ==> #[trigger] out@[k]@ == snapshot_of(self@.projects[k]),
            decreases self.projects@.len() - i,
        {
            out.push(project_snapshot(&self.projects[i]));
            i = i + 1;
        }
        assert(out@.map_values(|s: RegisteredUnityProjectSnapshot| s@) =~= self@.snapshots());
        assert forall|i: int| 0 <= i < out@.len() implies (#[trigger] out@[i]).activated == (
        self@.projects[i].runtime is Some) && out@[i].workspace_id@ == self@.projects[i].workspace_id
            && out@[i].project_path@ == self@.projects[i].project_path && out@[i].name@
            == self@.projects[i].name && out@[i].last_seen_at_ms
            == self@.projects[i].last_seen_at_ms by {
            assert(out@[i]@ == snapshot_of(self@.projects[i]));
        }
        out
    }
}

/// The snapshot of one registered project.
fn project_snapshot(entry: &RegisteredUnityProject) -> (r: RegisteredUnityProjectSnapshot)
    ensures
        r@ == snapshot_of(entry@),
{
    RegisteredUnityProjectSnapshot {
        workspace_id: entry.workspace_id.clone(),
        project_path: entry.project_path.clone(),
        name: entry.name.clone(),
        last_seen_at_ms: entry.last_seen_at_ms,
        activated: entry.activated_runtime.is_some(),
    }
}

} // verus!
