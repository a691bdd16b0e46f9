//! Turning the contents of workspace and project files into the tool's model.

use vstd::prelude::*;

use crate::document::{MatrixConfiguration, MatrixModel, EntryModel, ProjectDocument, WorkspaceDocument, WorkspaceEntry};
use crate::error::AppError;
use crate::model::{ProjectInfo, ProjectModelInfo, WorkspaceInfo};
use crate::paths;
use crate::text::{is_yes, is_yes_spec};

verus! {

/// How XML files are read: natively, or through Mike Farah's `yq` at the given path.
#[derive(Clone, Debug)]
pub enum XmlBackend {
    Native,
    Yq(String),
}

/// The build configuration a project uses when none is named: the remembered candidate
/// when the project has it, otherwise the only configuration of a project that has one.
pub open spec fn default_choice(configs: Seq<Seq<char>>, candidate: Option<Seq<char>>) -> Option<Seq<char>> {
    match candidate {
        Some(c) if configs.contains(c) => Some(c),
        _ => if configs.len() == 1 {
            Some(configs[0])
        } else {
            None
        },
    }
}

fn contains_text(values: &Vec<String>, s: &String) -> (r: bool)
    ensures
        r == values.deep_view().contains(s@),
{
    let mut i: usize = 0;
    while i < values.len()
        invariant
            i <= values.len(),
            forall|j: int| 0 <= j < i ==> values.deep_view()[j] != s@,
        decreases values.len() - i,
    {
        if values[i] == *s {
            assert(values.deep_view()[i as int] == s@);
            return true;
        }
        i = i + 1;
    }
    false
}

/// A project file's document completed with the file's path and the build configuration
/// it defaults to, given the candidate that the workspace's build matrix names.
pub fn parse_project(document: ProjectDocument, path: String, default_build_config: Option<String>) -> (r: ProjectInfo)
    ensures
        r@ == (ProjectModelInfo {
            name: document@.name,
            path: path@,
            language: document@.language,
            project_type: document@.project_type,
            build_configs: document@.build_configs,
            default_build_config: default_choice(document@.build_configs, default_build_config.deep_view()),
        }),
{
    let default = match default_build_config {
        Some(candidate) if contains_text(&document.build_configs, &candidate) => Some(candidate),
        _ => if document.build_configs.len() == 1 {
            Some(document.build_configs[0].clone())
        } else {
            None
        },
    };
    ProjectInfo {
        name: document.name,
        path,
        language: document.language,
        project_type: document.project_type,
        build_configs: document.build_configs,
        default_build_config: default,
    }
}


/// `i` is the first build-matrix configuration marked `Selected="yes"`.
pub open spec fn is_first_selected(matrix: Seq<MatrixModel>, i: int) -> bool {
    &&& 0 <= i < matrix.len()
    &&& is_yes_spec(matrix[i].0)
    &&& forall|j: int| 0 <= j < i ==> !is_yes_spec(#[trigger] matrix[j].0)
}

/// The `(project, build configuration)` pairs of the build-matrix configuration that
/// holds the defaults: the first one marked selected, else the first one, else none.
pub open spec fn matrix_defaults(matrix: Seq<MatrixModel>) -> Seq<(Seq<char>, Seq<char>)> {
    if exists|i: int| is_first_selected(matrix, i) {
        matrix[choose|i: int| is_first_selected(matrix, i)].1
    } else if matrix.len() > 0 {
        matrix[0].1
    } else {
        Seq::empty()
    }
}

/// The build configuration that the pairs give `name`; a later pair overrides an earlier one.
pub open spec fn mapped_config(pairs: Seq<(Seq<char>, Seq<char>)>, name: Seq<char>) -> Option<Seq<char>>
    decreases pairs.len(),
{
    if pairs.len() == 0 {
        None
    } else if pairs.last().0 == name {
        Some(pairs.last().1)
    } else {
        mapped_config(pairs.drop_last(), name)
    }
}

/// `i` is the first workspace entry marked `Active="yes"`.
pub open spec fn is_first_active(entries: Seq<EntryModel>, i: int) -> bool {
    &&& 0 <= i < entries.len()
    &&& is_yes_spec(entries[i].2)
    &&& forall|j: int| 0 <= j < i ==> !is_yes_spec(#[trigger] entries[j].2)
}

/// The name of the first workspace entry marked active, if any.
pub open spec fn active_name(entries: Seq<EntryModel>) -> Option<Seq<char>> {
    if exists|i: int| is_first_active(entries, i) {
        Some(entries[choose|i: int| is_first_active(entries, i)].0)
    } else {
        None
    }
}

/// A project that a workspace references: its name, its file as the workspace's directory
/// joined with the referenced path, and the build configuration the build matrix names for it.
#[derive(Clone, Debug)]
pub struct PlannedProject {
    pub name: String,
    pub path: String,
    pub default_build_config: Option<String>,
}

/// What a workspace file says before its project files are read.
#[derive(Clone, Debug)]
pub struct WorkspacePlan {
    pub name: String,
    pub path: String,
    pub active_project: Option<String>,
    pub projects: Vec<PlannedProject>,
}

/// The model of a planned project.
pub type PlannedModel = (Seq<char>, Seq<char>, Option<Seq<char>>);

impl View for PlannedProject {
    type V = PlannedModel;

    open spec fn view(&self) -> PlannedModel {
        (self.name@, self.path@, self.default_build_config.deep_view())
    }
}

/// The text of the error for a workspace path without a parent directory.
pub open spec fn no_parent_text() -> Seq<char> {
    "workspace 路径没有父目录"@
}

/// The plan for one referenced project, given the workspace's directory and build defaults.
pub open spec fn planned_for(entry: EntryModel, dir: Seq<char>, defaults: Seq<(Seq<char>, Seq<char>)>) -> PlannedModel {
    (entry.0, paths::path_join(dir, entry.1), mapped_config(defaults, entry.0))
}

fn first_selected(matrix: &Vec<MatrixConfiguration>) -> (r: Option<usize>)
    ensures
        match r {
            Some(i) => is_first_selected(matrix@.map_values(|c: MatrixConfiguration| c@), i as int),
            None => forall|i: int| 0 <= i < matrix.len() ==> !is_yes_spec(#[trigger] matrix@[i]@.0),
        },
{
    let ghost m = matrix@.map_values(|c: MatrixConfiguration| c@);
    let mut i: usize = 0;
    while i < matrix.len()
        invariant
            m == matrix@.map_values(|c: MatrixConfiguration| c@),
            i <= matrix.len(),
            forall|j: int| 0 <= j < i ==> !is_yes_spec(#[trigger] matrix@[j]@.0),
        decreases matrix.len() - i,
    {
        let selected = match &matrix[i].selected {
            Some(s) => Some(s.as_str()),
            None => None,
        };
        if is_yes(selected) {
            assert(m[i as int] == matrix@[i as int]@);
            assert forall|j: int| 0 <= j < i implies !is_yes_spec(#[trigger] m[j].0) by {
                assert(m[j] == matrix@[j]@);
            }
            return Some(i);
        }
        i = i + 1;
    }
    None
}

fn lookup_config(pairs: &Vec<(String, String)>, name: &String) -> (r: Option<String>)
    ensures
        r.deep_view() == mapped_config(pairs.deep_view(), name@),
{
    let ghost ps = pairs.deep_view();
    let mut i: usize = pairs.len();
    assert(ps.take(ps.len() as int) =~= ps);
    while i > 0
        invariant
            ps == pairs.deep_view(),
            i <= pairs.len(),
            mapped_config(ps, name@) == mapped_config(ps.take(i as int), name@),
        decreases i,
    {
        assert(ps.take(i as int).drop_last() =~= ps.take(i - 1));
        assert(ps.take(i as int).last() == ps[i - 1]);
        if pairs[i - 1].0 == *name {
            return Some(pairs[i - 1].1.clone());
        }
        i = i - 1;
    }
    None
}

fn first_active(entries: &Vec<WorkspaceEntry>) -> (r: Option<String>)
    ensures
        r.deep_view() == active_name(entries@.map_values(|e: WorkspaceEntry| e@)),
{
    let ghost es = entries@.map_values(|e: WorkspaceEntry| e@);
    let mut i: usize = 0;
    while i < entries.len()
        invariant
            es == entries@.map_values(|e: WorkspaceEntry| e@),
            i <= entries.len(),
            forall|j: int| 0 <= j < i ==> !is_yes_spec(#[trigger] es[j].2),
        decreases entries.len() - i,
    {
        let active = match &entries[i].active {
            Some(s) => Some(s.as_str()),
            None => None,
        };
        if is_yes(active) {
            assert(es[i as int] == entries@[i as int]@);
            assert(is_first_active(es, i as int));
            proof {
                let k = choose|k: int| is_first_active(es, k);
                assert(k == i) by {
                    if k < i {
                        assert(!is_yes_spec(es[k].2));
                    } else if k > i {
                        assert(!is_yes_spec(es[i as int].2));
                    }
                }
            }
            return Some(entries[i].name.clone());
        }
        i = i + 1;
    }
    assert forall|k: int| !is_first_active(es, k) by {
        if 0 <= k < es.len() {
            assert(!is_yes_spec(es[k].2));
        }
    }
    None
}

/// Reads a workspace document: the defaults of its build matrix, its active project and,
/// for each referenced project, the file it names relative to the workspace's directory.
/// A workspace path without a parent directory is a parse error.
pub fn parse_workspace(path: &String, document: WorkspaceDocument) -> (r: Result<WorkspacePlan, AppError>)
    ensures
        match paths::path_parent(path@) {
            None => r matches Err(AppError::Parse { path: p, message: t }) && p@ == path@ && t@ == no_parent_text(),
            Some(dir) => r matches Ok(plan) && {
                &&& plan.name@ == document@.name
                &&& plan.path@ == path@
                &&& plan.active_project.deep_view() == active_name(document@.projects)
                &&& plan.projects.len() == document@.projects.len()
                &&& forall|i: int| 0 <= i < plan.projects.len() ==> #[trigger] plan.projects@[i]@ == planned_for(
                    document@.projects[i], dir, matrix_defaults(document@.matrix))
            },
        },
{
    let ghost m = document.matrix@.map_values(|c: MatrixConfiguration| c@);
    let empty: Vec<(String, String)> = Vec::new();
    let defaults: &Vec<(String, String)> = match first_selected(&document.matrix) {
        Some(i) => {
            proof {
                let k = choose|k: int| is_first_selected(m, k);
                assert(k == i) by {
                    if k < i {
                        assert(!is_yes_spec(m[k].0));
                    } else if k > i {
                        assert(!is_yes_spec(m[i as int].0));
                    }
                }
            }
            &document.matrix[i].projects
        },
        None => {
            assert forall|k: int| !is_first_selected(m, k) by {
                if 0 <= k < m.len() {
                    assert(m[k] == document.matrix@[k]@);
                }
            }
            if document.matrix.len() > 0 {
                &document.matrix[0].projects
            } else {
                assert(empty.deep_view() =~= Seq::<(Seq<char>, Seq<char>)>::empty());
                &empty
            }
        },
    };
    assert(defaults.deep_view() == matrix_defaults(m));
    let dir = match paths::parent(path) {
        Some(d) => d,
        None => {
            return Err(parse_message(path, String::from_str("workspace 路径没有父目录")));
        },
    };
    let active_project = first_active(&document.projects);
    let ghost es = document.projects@.map_values(|e: WorkspaceEntry| e@);
    let mut projects: Vec<PlannedProject> = Vec::new();
    let mut i: usize = 0;
    while i < document.projects.len()
        invariant
            es == document.projects@.map_values(|e: WorkspaceEntry| e@),
            i <= document.projects.len(),
            projects.len() == i,
            defaults.deep_view() == matrix_defaults(m),
            m == document.matrix@.map_values(|c: MatrixConfiguration| c@),
            forall|j: int| 0 <= j < i ==> #[trigger] projects@[j]@ == planned_for(es[j], dir@, matrix_defaults(m)),
        decreases document.projects.len() - i,
    {
        let entry = &document.projects[i];
        let planned = PlannedProject {
            name: entry.name.clone(),
            path: paths::join(&dir, entry.path.as_str()),
            default_build_config: lookup_config(defaults, &entry.name),
        };
        assert(es[i as int] == entry@);
        projects.push(planned);
        i = i + 1;
    }
    Ok(WorkspacePlan { name: document.name, path: path.clone(), active_project, projects })
}


/// A parse failure of the file at `path`.
pub fn parse_message(path: &String, message: String) -> (r: AppError)
    ensures
        r matches AppError::Parse { path: p, message: t } && p@ == path@ && t@ == message@,
{
    AppError::Parse { path: path.clone(), message }
}

/// The text of the error for a referenced project file that does not exist.
pub open spec fn missing_project_text(file: Seq<char>) -> Seq<char> {
    "引用的项目不存在: "@ + file
}

/// The text of the error for a project file whose name differs from the workspace's entry.
pub open spec fn name_mismatch_text(expected: Seq<char>, found: Seq<char>) -> Seq<char> {
    "workspace 项目名 "@ + expected + " 与项目文件中的名称 "@ + found + " 不一致"@
}

/// A referenced project file must exist; `exists` tells whether the file at `file` does.
pub fn check_project_file(workspace_path: &String, file: &String, exists: bool) -> (r: Result<(), AppError>)
    ensures
        exists ==> r is Ok,
        !exists ==> (r matches Err(AppError::Parse { path: p, message: t }) && p@ == workspace_path@
            && t@ == missing_project_text(file@)),
{
    if exists {
        Ok(())
    } else {
        let mut message = String::from_str("引用的项目不存在: ");
        message.append(file.as_str());
        Err(parse_message(workspace_path, message))
    }
}

/// A project read for a workspace entry is accepted when its name is the entry's name.
pub fn admit_project(workspace_path: &String, planned: &PlannedProject, project: ProjectInfo) -> (r: Result<ProjectInfo, AppError>)
    ensures
        project.name@ == planned.name@ ==> (r matches Ok(p) && p@ == project@),
        project.name@ != planned.name@ ==> (r matches Err(AppError::Parse { path: p, message: t })
            && p@ == workspace_path@ && t@ == name_mismatch_text(planned.name@, project.name@)),
{
    if project.name == planned.name {
        Ok(project)
    } else {
        let mut message = String::from_str("workspace 项目名 ");
        message.append(planned.name.as_str());
        message.append(" 与项目文件中的名称 ");
        message.append(project.name.as_str());
        message.append(" 不一致");
        Err(parse_message(workspace_path, message))
    }
}

impl WorkspacePlan {
    /// The workspace with the projects read for its entries, in order.
    pub fn finish(self, projects: Vec<ProjectInfo>) -> (r: WorkspaceInfo)
        ensures
            r.name@ == self.name@,
            r.path@ == self.path@,
            r.active_project.deep_view() == self.active_project.deep_view(),
            r.projects@ == projects@,
    {
        WorkspaceInfo { name: self.name, path: self.path, active_project: self.active_project, projects }
    }
}


/// A project's default build configuration is always one of its configurations.
pub proof fn law_default_is_a_build_config(configs: Seq<Seq<char>>, candidate: Option<Seq<char>>)
    ensures
        default_choice(configs, candidate) matches Some(d) ==> configs.contains(d),
{
    if let Some(d) = default_choice(configs, candidate) {
        if !(candidate matches Some(c) && configs.contains(c)) {
            assert(configs[0] == d);
        }
    }
}

/// The build matrix's choice for a project wins whenever the project has that
/// configuration; otherwise a project with a single configuration defaults to it.
pub proof fn law_matrix_choice_wins(configs: Seq<Seq<char>>, candidate: Option<Seq<char>>)
    ensures
        candidate matches Some(c) && configs.contains(c) ==> default_choice(configs, candidate) == candidate,
        !(candidate matches Some(c) && configs.contains(c)) && configs.len() == 1 ==> default_choice(configs, candidate) == Some(configs[0]),
        !(candidate matches Some(c) && configs.contains(c)) && configs.len() != 1 ==> default_choice(configs, candidate) is None,
{
}

} // verus!
