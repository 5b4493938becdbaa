//! Projects and the list of those opened most recently.

use vstd::prelude::*;
use vstd::string::StringExecFns;
use crate::storage::StoreError;
use crate::text::optional_text;

verus! {

/// How many projects the list of recent ones keeps.
pub const RECENT_LIMIT: usize = 10;

/// A project: a directory that the agent works in.
#[derive(Debug, Clone, PartialEq, Eq)]
pub struct Project {
    pub name: String,
    pub path: String,
    pub last_opened: Option<String>,
}

/// A project, as characters.
pub struct ProjectModel {
    pub name: Seq<char>,
    pub path: Seq<char>,
    pub last_opened: Option<Seq<char>>,
}

impl View for Project {
    type V = ProjectModel;

    open spec fn view(&self) -> ProjectModel {
        ProjectModel {
            name: self.name@,
            path: self.path@,
            last_opened: optional_text(self.last_opened),
        }
    }
}

/// The projects of `projects`, each as characters.
pub open spec fn project_models(projects: Seq<Project>) -> Seq<ProjectModel> {
    projects.map_values(|project: Project| project@)
}

/// The name of a project whose path has no final component.
pub open spec fn unknown_name() -> Seq<char> {
    "Unknown"@
}

/// The project at `path` whose final component is `component`, opened at
/// `opened_at`.
pub open spec fn described(
    path: Seq<char>,
    component: Option<Seq<char>>,
    opened_at: Seq<char>,
) -> ProjectModel {
    ProjectModel {
        name: match component {
            Some(name) => name,
            None => unknown_name(),
        },
        path,
        last_opened: Some(opened_at),
    }
}

/// The projects of `projects` that are not at `path`, in order.
pub open spec fn without_path(projects: Seq<ProjectModel>, path: Seq<char>) -> Seq<ProjectModel>
    decreases projects.len(),
{
    if projects.len() == 0 {
        Seq::empty()
    } else {
        let before = without_path(projects.drop_last(), path);
        if projects.last().path == path {
            before
        } else {
            before.push(projects.last())
        }
    }
}

/// The first `limit` of `projects`, or all of them where there are fewer.
pub open spec fn at_most(projects: Seq<ProjectModel>, limit: nat) -> Seq<ProjectModel> {
    if projects.len() > limit {
        projects.take(limit as int)
    } else {
        projects
    }
}

/// The list of recent projects after `opened` was opened: `opened` first,
/// then the projects that were listed before, less any at the same path, and
/// of all that no more than the limit.
pub open spec fn remembered(stored: Seq<ProjectModel>, opened: ProjectModel) -> Seq<ProjectModel> {
    at_most(seq![opened] + without_path(stored, opened.path), RECENT_LIMIT as nat)
}

/// Nothing that `without_path` keeps is at the path, and it keeps no more
/// than it was given.
pub proof fn lemma_without_path(projects: Seq<ProjectModel>, path: Seq<char>)
    ensures
        without_path(projects, path).len() <= projects.len(),
        forall|i: int|
            0 <= i < without_path(projects, path).len() ==> (#[trigger] without_path(
                projects,
                path,
            )[i]).path != path,
    decreases projects.len(),
{
    if projects.len() > 0 {
        lemma_without_path(projects.drop_last(), path);
    }
}

/// The list of recent projects begins with the project just opened, lists
/// nothing else at its path, and never outgrows the limit.
pub proof fn lemma_remembered_shape(stored: Seq<ProjectModel>, opened: ProjectModel)
    ensures
        1 <= remembered(stored, opened).len() <= RECENT_LIMIT,
        remembered(stored, opened).len() <= stored.len() + 1,
        remembered(stored, opened)[0] == opened,
        forall|i: int|
            0 < i < remembered(stored, opened).len() ==> (#[trigger] remembered(
                stored,
                opened,
            )[i]).path != opened.path,
{
    lemma_without_path(stored, opened.path);
    let kept = without_path(stored, opened.path);
    let all = seq![opened] + kept;
    assert forall|i: int| 0 < i < remembered(stored, opened).len() implies (
    #[trigger] remembered(stored, opened)[i]).path != opened.path by {
        assert(remembered(stored, opened)[i] == all[i]);
        assert(all[i] == kept[i - 1]);
    }
}

/// Calls `Path::file_name` of std on `path` and hands the name on as a
/// string. How a path falls into components depends on the host, so nothing
/// is claimed of the result.
#[verifier::external_body]
fn final_component(path: &str) -> (name: Option<String>) {
    let name = std::path::Path::new(path).file_name()?;
    Some(name.to_str()?.to_string())
}

fn copy_text(text: &Option<String>) -> (r: Option<String>)
    ensures
        r == *text,
{
    match text {
        Some(t) => Some(t.clone()),
        None => None,
    }
}

fn copy_project(project: &Project) -> (r: Project)
    ensures
        r == *project,
{
    Project {
        name: project.name.clone(),
        path: project.path.clone(),
        last_opened: copy_text(&project.last_opened),
    }
}

/// Describes the project at `path`. `component` is the final component of
/// the path, none where it has none; the project is named after it, or
/// `Unknown`.
pub fn describe_project(path: String, component: Option<String>, opened_at: String) -> (r: Project)
    ensures
        r@ == described(path@, optional_text(component), opened_at@),
{
    let name = match component {
        Some(name) => name,
        None => String::from_str("Unknown"),
    };
    Project { name, path, last_opened: Some(opened_at) }
}

/// Opens the project at `path`. `exists` says whether the path names
/// anything, `opened_at` is the time of opening. A path that names nothing is
/// refused; otherwise the project is the one that `describe_project` gives for
/// the final component of the path as the host sees it.
pub fn open_project(path: String, exists: bool, opened_at: String) -> (r: Result<
    Project,
    StoreError,
>)
    ensures
        !exists ==> r == Err::<Project, StoreError>(StoreError::MissingProject(path)),
        exists ==> r is Ok && exists|component: Option<Seq<char>>|
            r->Ok_0@ == described(path@, component, opened_at@),
{
    if !exists {
        return Err(StoreError::MissingProject(path));
    }
    let component = final_component(path.as_str());
    let ghost seen = optional_text(component);
    let project = describe_project(path, component, opened_at);
    assert(project@ == described(path@, seen, opened_at@));
    Ok(project)
}

proof fn lemma_at_most_push(projects: Seq<ProjectModel>, next: ProjectModel, limit: nat)
    ensures
        projects.len() >= limit ==> at_most(projects.push(next), limit) == at_most(
            projects,
            limit,
        ),
        projects.len() < limit ==> at_most(projects.push(next), limit) == at_most(
            projects,
            limit,
        ).push(next),
{
    if projects.len() >= limit {
        assert(projects.push(next).take(limit as int) =~= projects.take(limit as int));
        assert(projects.take(projects.len() as int) =~= projects);
    }
}

/// Puts `opened` at the head of the list of recent projects. `stored` is the
/// list as it was kept, none where there was none or it could not be read.
/// An earlier entry for the same path goes, and the list is cut to the limit.
pub fn remember_project(stored: Option<Vec<Project>>, opened: &Project) -> (r: Vec<Project>)
    ensures
        project_models(r@) == remembered(
            match stored {
                Some(listed) => project_models(listed@),
                None => Seq::empty(),
            },
            opened@,
        ),
{
    let listed: Vec<Project> = match stored {
        Some(listed) => listed,
        None => Vec::new(),
    };
    let ghost before = project_models(listed@);
    let ghost path = opened@.path;
    let mut recent: Vec<Project> = Vec::new();
    recent.push(copy_project(opened));
    assert(project_models(recent@) =~= seq![opened@]);
    assert(before.take(0) =~= Seq::<ProjectModel>::empty());
    assert(seq![opened@] + Seq::<ProjectModel>::empty() =~= seq![opened@]);
    let mut i: usize = 0;
    while i < listed.len()
        invariant
            i <= listed.len(),
            before == project_models(listed@),
            path == opened@.path,
            project_models(recent@) == at_most(
                seq![opened@] + without_path(before.take(i as int), path),
                RECENT_LIMIT as nat,
            ),
            recent.len() <= RECENT_LIMIT,
            recent.len() == RECENT_LIMIT || recent.len() == (seq![opened@] + without_path(
                before.take(i as int),
                path,
            )).len(),
        decreases listed.len() - i,
    {
        let ghost so_far = seq![opened@] + without_path(before.take(i as int), path);
        let ghost kept = project_models(recent@);
        assert(before.take(i + 1).drop_last() =~= before.take(i as int));
        assert(before.take(i + 1).last() == listed@[i as int]@);
        let candidate = &listed[i];
        if !(candidate.path == opened.path) {
            proof {
                lemma_at_most_push(so_far, candidate@, RECENT_LIMIT as nat);
                assert(seq![opened@] + without_path(before.take(i + 1), path) =~= so_far.push(
                    candidate@,
                ));
            }
            if recent.len() < RECENT_LIMIT {
                recent.push(copy_project(candidate));
                assert(project_models(recent@) =~= kept.push(candidate@));
            }
        }
        i += 1;
    }
    assert(before.take(listed.len() as int) =~= before);
    recent
}

} // verus!
