//! From a directory to the identity of a Unity project: the canonical path,
//! the display name and the workspace id.

use vstd::prelude::*;

use crate::error::AppError;
use crate::registry::{opt_str_view, UnityProjectIdentity};
use crate::text::{trim_str, trimmed};

verus! {

/// `part` stands somewhere in `whole`, as a contiguous run of characters.
pub open spec fn is_part_of(part: Seq<char>, whole: Seq<char>) -> bool {
    exists|i: int| 0 <= i && i + part.len() <= whole.len() && #[trigger] whole.subrange(i, i + part.len()) == part
}

/// `c` separates path components on some platform.
pub open spec fn is_separator(c: char) -> bool {
    c == '/' || c == '\\'
}

/// `path` is a plain path whose final component stands at `k + 1 .. e`:
/// - the component is not empty, not `.` or `..`, and holds no `/` or `\`;
/// - before it stands nothing, or a `/` at `k`;
/// - the path has no drive prefix (no `:` as its second character) and no
///   network or device prefix (it does not start with two separators);
/// - after the component stand only separators `/` and `.` components, as
///   in `a/b/`, `a/b/.` or `a/b/.//`.
///
/// For such a path every platform finds the same final component: a prefix
/// is read only at the start of a path, and the component is delimited by
/// `/`, a separator everywhere.
pub open spec fn plain_file_name_at(path: Seq<char>, k: int, e: int) -> bool {
    &&& -1 <= k
    &&& k + 1 < e <= path.len()
    &&& k >= 0 ==> path[k] == '/'
    &&& forall|i: int| k < i < e ==> path[i] != '/' && path[i] != '\\'
    &&& !(path.len() >= 2 && path[1] == ':')
    &&& !(path.len() >= 2 && is_separator(path[0]) && is_separator(path[1]))
    &&& path.subrange(k + 1, e) != seq!['.']
    &&& path.subrange(k + 1, e) != seq!['.', '.']
    &&& forall|i: int|
        e <= i < path.len() ==> #[trigger] path[i] == '/' || (path[i] == '.' && path[i - 1] == '/'
            && (i + 1 == path.len() || path[i + 1] == '/'))
}

/// `Path::file_name` of the path `path`, read back as text. The result is
/// always a part of the path. For a plain path (see `plain_file_name_at`) it
/// is its final component, trailing separators and `.` components left
/// aside, as the documentation's examples show on every platform
/// (`/usr/bin/` gives `bin`, `foo.txt/.` gives `foo.txt`); a `:` inside a
/// later component (`/p/Game:Remastered`) is part of that component on every
/// platform. Which part it is for other paths (drive letters, a leading
/// pair of separators, a final component delimited by `\`, a trailing `..`)
/// differs between platforms and is left unsaid.
#[verifier::external_body]
fn path_file_name<'a>(path: &'a str) -> (r: Option<&'a str>)
    ensures
        r matches Some(n) ==> is_part_of(n@, path@),
        forall|k: int, e: int|
            #[trigger] plain_file_name_at(path@, k, e) ==> opt_str_view(r) == Some(
                path@.subrange(k + 1, e),
            ),
{
    match std::path::Path::new(path).file_name() {
        Some(name) => name.to_str(),
        None => None,
    }
}

/// The display name of a project at `path` whose final path component is
/// `file_name`: that component trimmed, unless it is missing or blank, in
/// which case the path itself.
pub open spec fn display_name(path: Seq<char>, file_name: Option<Seq<char>>) -> Seq<char> {
    match file_name {
        Some(n) => if trimmed(n).len() > 0 { trimmed(n) } else { path },
        None => path,
    }
}

/// The display name of the project at `project_path` whose final path
/// component is `file_name`.
pub fn display_name_from_file_name(project_path: &str, file_name: Option<&str>) -> (r: String)
    ensures
        r@ == display_name(project_path@, opt_str_view(file_name)),
{
    if let Some(name) = file_name {
        let t = trim_str(name);
        if !t.is_empty() {
            return t.to_owned();
        }
    }
    project_path.to_owned()
}

/// The display name of the project at `project_path`: its final path
/// component, trimmed, or the whole path when that is missing or blank.
/// For a plain path the final component is the one `plain_file_name_at`
/// marks.
pub fn project_display_name(project_path: &str) -> (r: String)
    ensures
        exists|f: Option<Seq<char>>|
            (f matches Some(n) ==> is_part_of(n, project_path@)) && r@ == #[trigger] display_name(
                project_path@,
                f,
            ),
        forall|k: int, e: int|
            #[trigger] plain_file_name_at(project_path@, k, e) ==> r@ == display_name(
                project_path@,
                Some(project_path@.subrange(k + 1, e)),
            ),
{
    let file_name = path_file_name(project_path);
    let r = display_name_from_file_name(project_path, file_name);
    assert(r@ == display_name(project_path@, opt_str_view(file_name)));
    r
}

/// The canonical path of a Unity project given as `project_path`.
/// `is_unity_project` is what the project probe says of the trimmed path,
/// and `canonicalized` what canonicalizing the trimmed path gave, if it
/// succeeded. An empty trimmed path is a `PathEmpty` error, a directory that
/// is not a Unity project an `InvalidProject` error carrying the trimmed
/// path; otherwise the canonical path, or the trimmed path when
/// canonicalizing failed.
pub fn canonical_unity_project_path(
    project_path: &str,
    is_unity_project: bool,
    canonicalized: Option<String>,
) -> (r: Result<String, AppError>)
    ensures
        ({
            let t = trimmed(project_path@);
            if t.len() == 0 {
                r matches Err(AppError::PathEmpty)
            } else if !is_unity_project {
                r matches Err(AppError::InvalidProject(p)) && p@ == t
            } else {
                r matches Ok(c) && c@ == (match canonicalized {
                    Some(cp) => cp@,
                    None => t,
                })
            }
        }),
{
    let t = trim_str(project_path);
    if t.is_empty() {
        return Err(AppError::PathEmpty);
    }
    if !is_unity_project {
        return Err(AppError::InvalidProject(t.to_owned()));
    }
    match canonicalized {
        Some(c) => Ok(c),
        None => Ok(t.to_owned()),
    }
}

/// The identity of the project at the canonical path `canonical`, whose
/// workspace id lookup gave `workspace_id`. A failed lookup is a
/// `WorkspaceIdFailed` error carrying its reason.
pub fn resolve_project_identity(canonical: String, workspace_id: Result<String, String>) -> (r: Result<
    UnityProjectIdentity,
    AppError,
>)
    ensures
        match workspace_id {
            Ok(id) => r matches Ok(ident) && ident.workspace_id@ == id@ && ident.project_path@
                == canonical@ && (exists|f: Option<Seq<char>>|
                (f matches Some(n) ==> is_part_of(n, canonical@)) && ident.name@
                    == #[trigger] display_name(canonical@, f)) && (forall|k: int, e: int|
                #[trigger] plain_file_name_at(canonical@, k, e) ==> ident.name@ == display_name(
                    canonical@,
                    Some(canonical@.subrange(k + 1, e)),
                )),
            Err(reason) => r matches Err(AppError::WorkspaceIdFailed(m)) && m@ == reason@,
        },
{
    match workspace_id {
        Ok(id) => {
            let name = project_display_name(canonical.as_str());
            Ok(UnityProjectIdentity { workspace_id: id, name, project_path: canonical })
        },
        Err(reason) => Err(AppError::WorkspaceIdFailed(reason)),
    }
}

} // verus!
