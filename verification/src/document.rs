//! The contents of CDK workspace and project files, and how they are read from the
//! JSON that `yq` prints for them.

use vstd::prelude::*;

use crate::error::AppError;
use crate::json::{agree_except, attr, attr_optional, attribute, items, member, missing_attribute_text, targets, target, values, Json};

verus! {

/// A `<Project Name=".." Path=".." Active="..">` entry of a workspace file.
#[derive(Clone, Debug)]
pub struct WorkspaceEntry {
    pub name: String,
    pub path: String,
    pub active: Option<String>,
}

/// A `<WorkspaceConfiguration Selected="..">` of a workspace's build matrix, with its
/// `(project name, build configuration)` pairs.
#[derive(Clone, Debug)]
pub struct MatrixConfiguration {
    pub selected: Option<String>,
    pub projects: Vec<(String, String)>,
}

/// What a workspace file (`.cdkws`) states.
#[derive(Clone, Debug)]
pub struct WorkspaceDocument {
    pub name: String,
    pub projects: Vec<WorkspaceEntry>,
    pub matrix: Vec<MatrixConfiguration>,
}

/// What a project file (`.cdkproj`) states.
#[derive(Clone, Debug)]
pub struct ProjectDocument {
    pub name: String,
    pub language: Option<String>,
    pub project_type: Option<String>,
    pub build_configs: Vec<String>,
}

/// The model of a workspace entry: name, path and `Active` flag.
pub type EntryModel = (Seq<char>, Seq<char>, Option<Seq<char>>);

/// The model of a build-matrix configuration: `Selected` flag and project mappings.
pub type MatrixModel = (Option<Seq<char>>, Seq<(Seq<char>, Seq<char>)>);

/// The model of a workspace document.
pub struct WorkspaceModel {
    pub name: Seq<char>,
    pub projects: Seq<EntryModel>,
    pub matrix: Seq<MatrixModel>,
}

/// The model of a project document.
pub struct ProjectModel {
    pub name: Seq<char>,
    pub language: Option<Seq<char>>,
    pub project_type: Option<Seq<char>>,
    pub build_configs: Seq<Seq<char>>,
}

impl View for WorkspaceEntry {
    type V = EntryModel;

    open spec fn view(&self) -> EntryModel {
        (self.name@, self.path@, self.active.deep_view())
    }
}

impl View for MatrixConfiguration {
    type V = MatrixModel;

    open spec fn view(&self) -> MatrixModel {
        (self.selected.deep_view(), self.projects.deep_view())
    }
}

impl View for WorkspaceDocument {
    type V = WorkspaceModel;

    open spec fn view(&self) -> WorkspaceModel {
        WorkspaceModel {
            name: self.name@,
            projects: self.projects@.map_values(|e: WorkspaceEntry| e@),
            matrix: self.matrix@.map_values(|m: MatrixConfiguration| m@),
        }
    }
}

impl View for ProjectDocument {
    type V = ProjectModel;

    open spec fn view(&self) -> ProjectModel {
        ProjectModel {
            name: self.name@,
            language: self.language.deep_view(),
            project_type: self.project_type.deep_view(),
            build_configs: self.build_configs.deep_view(),
        }
    }
}

/// The attribute `name` of every value, or the missing-attribute error when one lacks it.
pub open spec fn all_attributes(values: Seq<Json>, name: Seq<char>) -> Result<Seq<Seq<char>>, Seq<char>> {
    if forall|i: int| 0 <= i < values.len() ==> (#[trigger] attribute(values[i], name)) is Some {
        Ok(Seq::new(values.len(), |i: int| attribute(values[i], name)->0))
    } else {
        Err(missing_attribute_text(name))
    }
}

/// The project document that `yq` prints, or the text of the first error in it.
pub open spec fn project_from_json(json: Json) -> Result<ProjectModel, Seq<char>> {
    match member(json, "Project"@) {
        None => Err("缺少 Project 根元素"@),
        Some(root) => {
            let configs = match member(root, "BuildConfigs"@) {
                None => Ok(Seq::empty()),
                Some(c) => all_attributes(items(member(c, "BuildConfig"@)), "Name"@),
            };
            match configs {
                Err(e) => Err(e),
                Ok(build_configs) => match attribute(root, "Name"@) {
                    None => Err(missing_attribute_text("Name"@)),
                    Some(name) => Ok(
                        ProjectModel {
                            name,
                            language: attribute(root, "Language"@),
                            project_type: attribute(root, "Type"@),
                            build_configs,
                        },
                    ),
                },
            }
        },
    }
}

/// The workspace entries, read front to back; the first entry that lacks `Name`, or else
/// `Path`, gives the error.
pub open spec fn entries_from_json(values: Seq<Json>) -> Result<Seq<EntryModel>, Seq<char>>
    decreases values.len(),
{
    if values.len() == 0 {
        Ok(Seq::empty())
    } else {
        match entries_from_json(values.drop_last()) {
            Err(e) => Err(e),
            Ok(prefix) => {
                let v = values.last();
                match (attribute(v, "Name"@), attribute(v, "Path"@)) {
                    (None, _) => Err(missing_attribute_text("Name"@)),
                    (Some(_), None) => Err(missing_attribute_text("Path"@)),
                    (Some(n), Some(p)) => Ok(prefix.push((n, p, attribute(v, "Active"@)))),
                }
            },
        }
    }
}

/// The `(Name, ConfigName)` pairs of a build-matrix configuration, read front to back.
pub open spec fn mappings_from_json(values: Seq<Json>) -> Result<Seq<(Seq<char>, Seq<char>)>, Seq<char>>
    decreases values.len(),
{
    if values.len() == 0 {
        Ok(Seq::empty())
    } else {
        match mappings_from_json(values.drop_last()) {
            Err(e) => Err(e),
            Ok(prefix) => {
                let v = values.last();
                match (attribute(v, "Name"@), attribute(v, "ConfigName"@)) {
                    (None, _) => Err(missing_attribute_text("Name"@)),
                    (Some(_), None) => Err(missing_attribute_text("ConfigName"@)),
                    (Some(n), Some(c)) => Ok(prefix.push((n, c))),
                }
            },
        }
    }
}

/// The build-matrix configurations, read front to back.
pub open spec fn matrix_from_json(values: Seq<Json>) -> Result<Seq<MatrixModel>, Seq<char>>
    decreases values.len(),
{
    if values.len() == 0 {
        Ok(Seq::empty())
    } else {
        match matrix_from_json(values.drop_last()) {
            Err(e) => Err(e),
            Ok(prefix) => {
                let v = values.last();
                match mappings_from_json(items(member(v, "Project"@))) {
                    Err(e) => Err(e),
                    Ok(m) => Ok(prefix.push((attribute(v, "Selected"@), m))),
                }
            },
        }
    }
}

/// The workspace document that `yq` prints, or the text of the first error in it.
pub open spec fn workspace_from_json(json: Json) -> Result<WorkspaceModel, Seq<char>> {
    match member(json, "CDK_Workspace"@) {
        None => Err("缺少 CDK_Workspace 根元素"@),
        Some(root) => match entries_from_json(items(member(root, "Project"@))) {
            Err(e) => Err(e),
            Ok(projects) => {
                let matrix = match member(root, "BuildMatrix"@) {
                    None => Ok(Seq::empty()),
                    Some(m) => matrix_from_json(items(member(m, "WorkspaceConfiguration"@))),
                };
                match matrix {
                    Err(e) => Err(e),
                    Ok(matrix) => match attribute(root, "Name"@) {
                        None => Err(missing_attribute_text("Name"@)),
                        Some(name) => Ok(WorkspaceModel { name, projects, matrix }),
                    },
                }
            },
        },
    }
}


/// Every configuration of the build matrix is read, in order, and keeps its own
/// `Selected` flag and its own `(Name, ConfigName)` pairs.
pub proof fn law_matrix_keeps_each_configuration(values: Seq<Json>)
    ensures
        matrix_from_json(values) matches Ok(m) ==> {
            &&& m.len() == values.len()
            &&& forall|k: int| 0 <= k < values.len() ==> (#[trigger] m[k]).0 == attribute(values[k], "Selected"@)
            &&& forall|k: int| 0 <= k < values.len() ==> mappings_from_json(items(member(values[k], "Project"@)))
                == Ok::<Seq<(Seq<char>, Seq<char>)>, Seq<char>>((#[trigger] m[k]).1)
        },
    decreases values.len(),
{
    if values.len() > 0 {
        let t = values.drop_last();
        law_matrix_keeps_each_configuration(t);
        if matrix_from_json(values) is Ok {
            let m = matrix_from_json(values)->Ok_0;
            let prefix = matrix_from_json(t)->Ok_0;
            assert forall|k: int| 0 <= k < values.len() implies (#[trigger] m[k]).0 == attribute(values[k], "Selected"@)
                && mappings_from_json(items(member(values[k], "Project"@))) == Ok::<Seq<(Seq<char>, Seq<char>)>, Seq<char>>(m[k].1) by {
                if k < t.len() {
                    assert(m[k] == prefix[k]);
                    assert(t[k] == values[k]);
                }
            }
        }
    }
}

/// The build-matrix configurations read alike when each reads alike: the same `Selected`
/// flag and the same list of `<Project>` values.
proof fn lemma_matrix_reads_alike(w1: Seq<Json>, w2: Seq<Json>)
    requires
        w1.len() == w2.len(),
        forall|k: int| 0 <= k < w1.len() ==> attribute(#[trigger] w1[k], "Selected"@) == attribute(w2[k], "Selected"@),
        forall|k: int| 0 <= k < w1.len() ==> items(member(#[trigger] w1[k], "Project"@)) == items(member(w2[k], "Project"@)),
    ensures
        matrix_from_json(w1) == matrix_from_json(w2),
    decreases w1.len(),
{
    if w1.len() > 0 {
        lemma_matrix_reads_alike(w1.drop_last(), w2.drop_last());
        assert(attribute(w1[w1.len() - 1], "Selected"@) == attribute(w2[w1.len() - 1], "Selected"@));
        assert(items(member(w1[w1.len() - 1], "Project"@)) == items(member(w2[w1.len() - 1], "Project"@)));
    }
}

/// A workspace with a single `<Project>` reads as one whose projects are a one-element
/// list of it.
pub proof fn law_workspace_lone_project(j1: Json, j2: Json, r1: Json, r2: Json, o: Json, v: Vec<Json>)
    requires
        member(j1, "CDK_Workspace"@) == Some(r1),
        member(j2, "CDK_Workspace"@) == Some(r2),
        agree_except(r1, r2, "Project"@),
        member(r1, "Project"@) == Some(o),
        member(r2, "Project"@) == Some(Json::Array(v)),
        o !is Array,
        v@ == seq![o],
    ensures
        workspace_from_json(j1) == workspace_from_json(j2),
{
    reveal_strlit("Project");
    assert("Project"@.len() == 7);
    reveal_strlit("BuildMatrix");
    assert("BuildMatrix"@.len() == 11);
    reveal_strlit("+@");
    assert("+@"@.len() == 2);
    reveal_strlit("Name");
    assert("Name"@.len() == 4);
    assert(member(r1, "BuildMatrix"@) == member(r2, "BuildMatrix"@));
    assert(member(r1, "+@"@ + "Name"@) == member(r2, "+@"@ + "Name"@));
}

/// A build matrix with a single `<WorkspaceConfiguration>` reads as one whose
/// configurations are a one-element list of it.
pub proof fn law_matrix_lone_configuration(
    j1: Json,
    j2: Json,
    r1: Json,
    r2: Json,
    m1: Json,
    m2: Json,
    o: Json,
    v: Vec<Json>,
)
    requires
        member(j1, "CDK_Workspace"@) == Some(r1),
        member(j2, "CDK_Workspace"@) == Some(r2),
        agree_except(r1, r2, "BuildMatrix"@),
        member(r1, "BuildMatrix"@) == Some(m1),
        member(r2, "BuildMatrix"@) == Some(m2),
        agree_except(m1, m2, "WorkspaceConfiguration"@),
        member(m1, "WorkspaceConfiguration"@) == Some(o),
        member(m2, "WorkspaceConfiguration"@) == Some(Json::Array(v)),
        o !is Array,
        v@ == seq![o],
    ensures
        workspace_from_json(j1) == workspace_from_json(j2),
{
    reveal_strlit("Project");
    assert("Project"@.len() == 7);
    reveal_strlit("BuildMatrix");
    assert("BuildMatrix"@.len() == 11);
    reveal_strlit("+@");
    assert("+@"@.len() == 2);
    reveal_strlit("Name");
    assert("Name"@.len() == 4);
    assert(member(r1, "Project"@) == member(r2, "Project"@));
    assert(member(r1, "+@"@ + "Name"@) == member(r2, "+@"@ + "Name"@));
}

/// A build-matrix configuration with a single `<Project>` reads as one whose mappings are
/// a one-element list of it; `w1` and `w2` are the configurations, which differ at `i`.
pub proof fn law_configuration_lone_project(
    j1: Json,
    j2: Json,
    r1: Json,
    r2: Json,
    m1: Json,
    m2: Json,
    w1: Seq<Json>,
    w2: Seq<Json>,
    i: int,
    o: Json,
    v: Vec<Json>,
)
    requires
        member(j1, "CDK_Workspace"@) == Some(r1),
        member(j2, "CDK_Workspace"@) == Some(r2),
        agree_except(r1, r2, "BuildMatrix"@),
        member(r1, "BuildMatrix"@) == Some(m1),
        member(r2, "BuildMatrix"@) == Some(m2),
        agree_except(m1, m2, "WorkspaceConfiguration"@),
        items(member(m1, "WorkspaceConfiguration"@)) == w1,
        items(member(m2, "WorkspaceConfiguration"@)) == w2,
        w1.len() == w2.len(),
        0 <= i < w1.len(),
        forall|k: int| 0 <= k < w1.len() && k != i ==> w1[k] == w2[k],
        agree_except(w1[i], w2[i], "Project"@),
        member(w1[i], "Project"@) == Some(o),
        member(w2[i], "Project"@) == Some(Json::Array(v)),
        o !is Array,
        v@ == seq![o],
    ensures
        workspace_from_json(j1) == workspace_from_json(j2),
{
    reveal_strlit("Project");
    assert("Project"@.len() == 7);
    reveal_strlit("BuildMatrix");
    assert("BuildMatrix"@.len() == 11);
    reveal_strlit("+@");
    assert("+@"@.len() == 2);
    reveal_strlit("Name");
    assert("Name"@.len() == 4);
    reveal_strlit("Selected");
    assert("Selected"@.len() == 8);
    assert(member(r1, "Project"@) == member(r2, "Project"@));
    assert(member(r1, "+@"@ + "Name"@) == member(r2, "+@"@ + "Name"@));
    assert(member(w1[i], "+@"@ + "Selected"@) == member(w2[i], "+@"@ + "Selected"@));
    assert forall|k: int| 0 <= k < w1.len() implies attribute(#[trigger] w1[k], "Selected"@) == attribute(
        w2[k],
        "Selected"@,
    ) by {
        if k != i {
            assert(w1[k] == w2[k]);
        }
    }
    assert forall|k: int| 0 <= k < w1.len() implies items(member(#[trigger] w1[k], "Project"@)) == items(
        member(w2[k], "Project"@),
    ) by {
        if k != i {
            assert(w1[k] == w2[k]);
        }
    }
    lemma_matrix_reads_alike(w1, w2);
}

/// A project with a single `<BuildConfig>` reads as one whose build configurations are a
/// one-element list of it.
pub proof fn law_project_lone_build_config(
    j1: Json,
    j2: Json,
    r1: Json,
    r2: Json,
    c1: Json,
    c2: Json,
    o: Json,
    v: Vec<Json>,
)
    requires
        member(j1, "Project"@) == Some(r1),
        member(j2, "Project"@) == Some(r2),
        agree_except(r1, r2, "BuildConfigs"@),
        member(r1, "BuildConfigs"@) == Some(c1),
        member(r2, "BuildConfigs"@) == Some(c2),
        agree_except(c1, c2, "BuildConfig"@),
        member(c1, "BuildConfig"@) == Some(o),
        member(c2, "BuildConfig"@) == Some(Json::Array(v)),
        o !is Array,
        v@ == seq![o],
    ensures
        project_from_json(j1) == project_from_json(j2),
{
    reveal_strlit("BuildConfigs");
    assert("BuildConfigs"@.len() == 12);
    reveal_strlit("+@");
    assert("+@"@.len() == 2);
    reveal_strlit("Name");
    assert("Name"@.len() == 4);
    reveal_strlit("Language");
    assert("Language"@.len() == 8);
    reveal_strlit("Type");
    assert("Type"@.len() == 4);
    assert(member(r1, "+@"@ + "Name"@) == member(r2, "+@"@ + "Name"@));
    assert(member(r1, "+@"@ + "Language"@) == member(r2, "+@"@ + "Language"@));
    assert(member(r1, "+@"@ + "Type"@) == member(r2, "+@"@ + "Type"@));
}


/// Whether a result of this module's readers matches its model: the document on success,
/// a parse error of the file at `path` with the model's text on failure.
pub open spec fn read_matches<D: View>(r: Result<D, AppError>, model: Result<D::V, Seq<char>>, path: Seq<char>) -> bool {
    match model {
        Ok(m) => r matches Ok(d) && d@ == m,
        Err(e) => r matches Err(AppError::Parse { path: p, message: t }) && p@ == path && t@ == e,
    }
}

fn parse_error(path: &String, text: &str) -> (r: AppError)
    ensures
        r matches AppError::Parse { path: p, message: t } && p@ == path@ && t@ == text@,
{
    AppError::Parse { path: path.clone(), message: String::from_str(text) }
}

/// The attribute `name` of every value.
fn collect_attributes(values: &Vec<&Json>, name: &str, path: &String) -> (r: Result<Vec<String>, AppError>)
    ensures
        match all_attributes(targets(values@), name@) {
            Ok(m) => r matches Ok(v) && v.deep_view() == m,
            Err(e) => r matches Err(AppError::Parse { path: p, message: t }) && p@ == path@ && t@ == e,
        },
{
    let ghost vs = targets(values@);
    let mut out: Vec<String> = Vec::new();
    let mut i: usize = 0;
    while i < values.len()
        invariant
            vs == targets(values@),
            i <= values.len(),
            out.len() == i,
            forall|j: int| 0 <= j < i ==> (#[trigger] attribute(vs[j], name@)) is Some,
            forall|j: int| 0 <= j < i ==> #[trigger] out@[j]@ == attribute(vs[j], name@)->0,
        decreases values.len() - i,
    {
        match attr(values[i], name, path) {
            Ok(s) => {
                out.push(s.clone());
            },
            Err(e) => {
                assert(attribute(vs[i as int], name@) is None);
                return Err(e);
            },
        }
        i = i + 1;
    }
    assert(out.deep_view() =~= Seq::new(vs.len(), |j: int| attribute(vs[j], name@)->0));
    Ok(out)
}

/// The project document in the JSON that `yq` prints for a project file.
pub fn parse_project_yq(path: &String, json: &Json) -> (r: Result<ProjectDocument, AppError>)
    ensures
        read_matches(r, project_from_json(*json), path@),
{
    let root = match json.get("Project") {
        Some(root) => root,
        None => {
            return Err(parse_error(path, "缺少 Project 根元素"));
        },
    };
    let build_configs = match root.get("BuildConfigs") {
        Some(configs) => {
            let list = values(configs.get("BuildConfig"));
            match collect_attributes(&list, "Name", path) {
                Ok(v) => v,
                Err(e) => {
                    return Err(e);
                },
            }
        },
        None => {
            let v: Vec<String> = Vec::new();
            assert(v.deep_view() =~= Seq::<Seq<char>>::empty());
            v
        },
    };
    let name = match attr(root, "Name", path) {
        Ok(n) => n,
        Err(e) => {
            return Err(e);
        },
    };
    let language = match attr_optional(root, "Language") {
        Some(s) => Some(s.clone()),
        None => None,
    };
    let project_type = match attr_optional(root, "Type") {
        Some(s) => Some(s.clone()),
        None => None,
    };
    let doc = ProjectDocument { name: name.clone(), language, project_type, build_configs };
    assert(doc@.language == attribute(*root, "Language"@));
    assert(doc@.project_type == attribute(*root, "Type"@));
    assert(doc@.name == attribute(*root, "Name"@)->0);
    assert(project_from_json(*json) matches Ok(m) && m.build_configs == doc@.build_configs);
    Ok(doc)
}


proof fn lemma_entries_prefix_error(values: Seq<Json>, j: int)
    requires
        0 <= j <= values.len(),
        entries_from_json(values.take(j)) is Err,
    ensures
        entries_from_json(values) == entries_from_json(values.take(j)),
    decreases values.len() - j,
{
    if j == values.len() {
        assert(values.take(j) =~= values);
    } else {
        assert(values.take(j + 1).drop_last() =~= values.take(j));
        lemma_entries_prefix_error(values, j + 1);
    }
}

proof fn lemma_mappings_prefix_error(values: Seq<Json>, j: int)
    requires
        0 <= j <= values.len(),
        mappings_from_json(values.take(j)) is Err,
    ensures
        mappings_from_json(values) == mappings_from_json(values.take(j)),
    decreases values.len() - j,
{
    if j == values.len() {
        assert(values.take(j) =~= values);
    } else {
        assert(values.take(j + 1).drop_last() =~= values.take(j));
        lemma_mappings_prefix_error(values, j + 1);
    }
}

proof fn lemma_matrix_prefix_error(values: Seq<Json>, j: int)
    requires
        0 <= j <= values.len(),
        matrix_from_json(values.take(j)) is Err,
    ensures
        matrix_from_json(values) == matrix_from_json(values.take(j)),
    decreases values.len() - j,
{
    if j == values.len() {
        assert(values.take(j) =~= values);
    } else {
        assert(values.take(j + 1).drop_last() =~= values.take(j));
        lemma_matrix_prefix_error(values, j + 1);
    }
}

fn optional_text(s: Option<&String>) -> (r: Option<String>)
    ensures
        r.deep_view() == match s {
            Some(t) => Some(t@),
            None => None::<Seq<char>>,
        },
{
    match s {
        Some(t) => Some(t.clone()),
        None => None,
    }
}

/// The workspace entries in a list of `<Project>` values.
fn entries_of(values: &Vec<&Json>, path: &String) -> (r: Result<Vec<WorkspaceEntry>, AppError>)
    ensures
        match entries_from_json(targets(values@)) {
            Ok(m) => r matches Ok(v) && v@.map_values(|e: WorkspaceEntry| e@) == m,
            Err(e) => r matches Err(AppError::Parse { path: p, message: t }) && p@ == path@ && t@ == e,
        },
{
    let ghost vs = targets(values@);
    let mut out: Vec<WorkspaceEntry> = Vec::new();
    let mut i: usize = 0;
    assert(vs.take(0) =~= Seq::<Json>::empty());
    assert(out@.map_values(|e: WorkspaceEntry| e@) =~= Seq::<EntryModel>::empty());
    while i < values.len()
        invariant
            vs == targets(values@),
            i <= values.len(),
            entries_from_json(vs.take(i as int)) == Ok::<Seq<EntryModel>, Seq<char>>(
                out@.map_values(|e: WorkspaceEntry| e@),
            ),
        decreases values.len() - i,
    {
        let v = values[i];
        assert(vs.take(i + 1).drop_last() =~= vs.take(i as int));
        assert(vs.take(i + 1).last() == *v);
        let name = match attr(v, "Name", path) {
            Ok(n) => n,
            Err(e) => {
                proof {
                    lemma_entries_prefix_error(vs, i + 1);
                }
                return Err(e);
            },
        };
        let project_path = match attr(v, "Path", path) {
            Ok(p) => p,
            Err(e) => {
                proof {
                    lemma_entries_prefix_error(vs, i + 1);
                }
                return Err(e);
            },
        };
        let entry = WorkspaceEntry {
            name: name.clone(),
            path: project_path.clone(),
            active: optional_text(attr_optional(v, "Active")),
        };
        let ghost before = out@;
        out.push(entry);
        assert(out@.map_values(|e: WorkspaceEntry| e@) =~= before.map_values(
            |e: WorkspaceEntry| e@,
        ).push(entry@));
        i = i + 1;
    }
    assert(vs.take(values.len() as int) =~= vs);
    Ok(out)
}

/// The `(Name, ConfigName)` pairs in a list of build-matrix `<Project>` values.
fn mappings_of(values: &Vec<&Json>, path: &String) -> (r: Result<Vec<(String, String)>, AppError>)
    ensures
        match mappings_from_json(targets(values@)) {
            Ok(m) => r matches Ok(v) && v.deep_view() == m,
            Err(e) => r matches Err(AppError::Parse { path: p, message: t }) && p@ == path@ && t@ == e,
        },
{
    let ghost vs = targets(values@);
    let mut out: Vec<(String, String)> = Vec::new();
    let mut i: usize = 0;
    assert(vs.take(0) =~= Seq::<Json>::empty());
    assert(out.deep_view() =~= Seq::<(Seq<char>, Seq<char>)>::empty());
    while i < values.len()
        invariant
            vs == targets(values@),
            i <= values.len(),
            mappings_from_json(vs.take(i as int)) == Ok::<Seq<(Seq<char>, Seq<char>)>, Seq<char>>(
                out.deep_view(),
            ),
        decreases values.len() - i,
    {
        let v = values[i];
        assert(vs.take(i + 1).drop_last() =~= vs.take(i as int));
        assert(vs.take(i + 1).last() == *v);
        let name = match attr(v, "Name", path) {
            Ok(n) => n,
            Err(e) => {
                proof {
                    lemma_mappings_prefix_error(vs, i + 1);
                }
                return Err(e);
            },
        };
        let config = match attr(v, "ConfigName", path) {
            Ok(c) => c,
            Err(e) => {
                proof {
                    lemma_mappings_prefix_error(vs, i + 1);
                }
                return Err(e);
            },
        };
        let ghost before = out.deep_view();
        out.push((name.clone(), config.clone()));
        assert(out.deep_view() =~= before.push((name@, config@)));
        i = i + 1;
    }
    assert(vs.take(values.len() as int) =~= vs);
    Ok(out)
}

/// The build-matrix configurations in a list of `<WorkspaceConfiguration>` values.
fn matrix_of(configs: &Vec<&Json>, path: &String) -> (r: Result<Vec<MatrixConfiguration>, AppError>)
    ensures
        match matrix_from_json(targets(configs@)) {
            Ok(m) => r matches Ok(v) && v@.map_values(|c: MatrixConfiguration| c@) == m,
            Err(e) => r matches Err(AppError::Parse { path: p, message: t }) && p@ == path@ && t@ == e,
        },
{
    let ghost vs = targets(configs@);
    let mut out: Vec<MatrixConfiguration> = Vec::new();
    let mut i: usize = 0;
    assert(vs.take(0) =~= Seq::<Json>::empty());
    assert(out@.map_values(|c: MatrixConfiguration| c@) =~= Seq::<MatrixModel>::empty());
    while i < configs.len()
        invariant
            vs == targets(configs@),
            i <= configs.len(),
            matrix_from_json(vs.take(i as int)) == Ok::<Seq<MatrixModel>, Seq<char>>(
                out@.map_values(|c: MatrixConfiguration| c@),
            ),
        decreases configs.len() - i,
    {
        let v = configs[i];
        assert(vs.take(i + 1).drop_last() =~= vs.take(i as int));
        assert(vs.take(i + 1).last() == *v);
        let list = values(v.get("Project"));
        let projects = match mappings_of(&list, path) {
            Ok(m) => m,
            Err(e) => {
                proof {
                    lemma_matrix_prefix_error(vs, i + 1);
                }
                return Err(e);
            },
        };
        let configuration = MatrixConfiguration {
            selected: optional_text(attr_optional(v, "Selected")),
            projects,
        };
        let ghost before = out@;
        out.push(configuration);
        assert(out@.map_values(|c: MatrixConfiguration| c@) =~= before.map_values(
            |c: MatrixConfiguration| c@,
        ).push(configuration@));
        i = i + 1;
    }
    assert(vs.take(configs.len() as int) =~= vs);
    Ok(out)
}

/// The workspace document in the JSON that `yq` prints for a workspace file.
pub fn parse_workspace_yq(path: &String, json: &Json) -> (r: Result<WorkspaceDocument, AppError>)
    ensures
        read_matches(r, workspace_from_json(*json), path@),
{
    let root = match json.get("CDK_Workspace") {
        Some(root) => root,
        None => {
            return Err(parse_error(path, "缺少 CDK_Workspace 根元素"));
        },
    };
    let project_values = values(root.get("Project"));
    let projects = match entries_of(&project_values, path) {
        Ok(p) => p,
        Err(e) => {
            return Err(e);
        },
    };
    let matrix = match root.get("BuildMatrix") {
        Some(m) => {
            let configurations = values(m.get("WorkspaceConfiguration"));
            match matrix_of(&configurations, path) {
                Ok(c) => c,
                Err(e) => {
                    return Err(e);
                },
            }
        },
        None => {
            let v: Vec<MatrixConfiguration> = Vec::new();
            assert(v@.map_values(|c: MatrixConfiguration| c@) =~= Seq::<MatrixModel>::empty());
            v
        },
    };
    let name = match attr(root, "Name", path) {
        Ok(n) => n,
        Err(e) => {
            return Err(e);
        },
    };
    let doc = WorkspaceDocument { name: name.clone(), projects, matrix };
    Ok(doc)
}

} // verus!
