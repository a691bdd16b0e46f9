//! The decisions of the command line: which workspace, project and build configuration a
//! command acts on, and what is remembered for the next run.

use vstd::prelude::*;

use crate::config::{GlobalConfig, LocalConfig, LocalModel};
use crate::discovery::DiscoveryBackend;
use crate::error::AppError;
use crate::model::{BuildAction, DiscoveryReport, ProjectInfo, ProjectModelInfo, ReportModel, WorkspaceInfo, WorkspaceModelInfo};
use crate::parser::XmlBackend;
use crate::paths;
use crate::text::{contains_text, join, join_texts, occurs_in};
use crate::runner::{BuildTarget, Invocation, InvocationModel, TargetModel};

verus! {

/// The first index below `len` at which `pred` holds, if any.
pub open spec fn first_where(len: int, pred: spec_fn(int) -> bool) -> Option<int> {
    if exists|i: int| 0 <= i < len && #[trigger] pred(i) && forall|j: int| 0 <= j < i ==> !#[trigger] pred(j) {
        Some(choose|i: int| 0 <= i < len && #[trigger] pred(i) && forall|j: int| 0 <= j < i ==> !#[trigger] pred(j))
    } else {
        None
    }
}

proof fn lemma_first_where_found(len: int, pred: spec_fn(int) -> bool, i: int)
    requires
        0 <= i < len,
        pred(i),
        forall|j: int| 0 <= j < i ==> !#[trigger] pred(j),
    ensures
        first_where(len, pred) == Some(i),
{
    let k = choose|k: int| 0 <= k < len && #[trigger] pred(k) && forall|j: int| 0 <= j < k ==> !#[trigger] pred(j);
    assert(0 <= i < len && pred(i) && forall|j: int| 0 <= j < i ==> !#[trigger] pred(j));
    assert(k == i) by {
        if k < i {
            assert(!pred(k));
        } else if k > i {
            assert(!pred(i));
        }
    }
}

proof fn lemma_first_where_none(len: int, pred: spec_fn(int) -> bool)
    requires
        forall|j: int| 0 <= j < len ==> !#[trigger] pred(j),
    ensures
        first_where(len, pred) is None,
{
}

/// The outcome of offering candidates: one is chosen, the user is to be asked, or none
/// can be chosen.
#[derive(Clone, Copy, Debug, PartialEq, Eq, Structural)]
pub enum Choice {
    Chosen(usize),
    Ask,
}

/// Why no candidate could be chosen.
#[derive(Clone, Copy, Debug, PartialEq, Eq, Structural)]
pub enum ChoiceFailure {
    Empty,
    Ambiguous,
    OutOfRange,
}

/// The answer given to the question at position `cursor`, if it was asked before.
pub open spec fn answer_at(answers: Seq<usize>, cursor: int) -> Option<usize> {
    if 0 <= cursor < answers.len() {
        Some(answers[cursor])
    } else {
        None
    }
}

/// Choosing among `n` candidates: none is an error; a single one is taken unless the user
/// must choose (`force`); otherwise an interactive user picks one (`answer`, or a question
/// while there is none yet), and without a terminal it is an error.
pub open spec fn choice_spec(n: int, force: bool, interactive: bool, answer: Option<usize>) -> Result<Choice, ChoiceFailure> {
    if n == 0 {
        Err(ChoiceFailure::Empty)
    } else if n == 1 && !force {
        Ok(Choice::Chosen(0))
    } else if interactive {
        match answer {
            None => Ok(Choice::Ask),
            Some(a) => if a < n {
                Ok(Choice::Chosen(a))
            } else {
                Err(ChoiceFailure::OutOfRange)
            },
        }
    } else {
        Err(ChoiceFailure::Ambiguous)
    }
}

/// Whether the choice takes the answer at the cursor.
pub open spec fn takes_answer(n: int, force: bool, interactive: bool, answer: Option<usize>) -> bool {
    n != 0 && !(n == 1 && !force) && interactive && answer is Some
}

/// The text of a failed choice for the question `prompt`.
pub open spec fn failure_text(prompt: Seq<char>, failure: ChoiceFailure) -> Seq<char> {
    match failure {
        ChoiceFailure::Empty => prompt + ": 没有可用项"@,
        ChoiceFailure::Ambiguous => prompt + ": 存在多个候选项，非交互模式下必须显式指定"@,
        ChoiceFailure::OutOfRange => prompt + ": 所选序号超出候选范围"@,
    }
}

/// The result of a choice as the chooser returns it, and where the cursor ends.
pub open spec fn choice_matches(
    r: Result<Choice, AppError>,
    expected: Result<Choice, Seq<char>>,
) -> bool {
    match expected {
        Ok(c) => r == Ok::<Choice, AppError>(c),
        Err(text) => r matches Err(AppError::Message(m)) && m@ == text,
    }
}

/// The expected result of a choice among `n` candidates, with failure texts for `prompt`.
pub open spec fn choice_result(n: int, prompt: Seq<char>, force: bool, interactive: bool, answer: Option<usize>) -> Result<Choice, Seq<char>> {
    match choice_spec(n, force, interactive, answer) {
        Ok(c) => Ok(c),
        Err(f) => Err(failure_text(prompt, f)),
    }
}

fn failure_message(prompt: &str, suffix: &str) -> (r: AppError)
    ensures
        r matches AppError::Message(m) && m@ == prompt@ + suffix@,
{
    AppError::Message(String::from_str(prompt).concat(suffix))
}

/// Chooses among `n` candidates (see `choice_spec`), taking the answer at `cursor` when
/// the user is asked and advancing the cursor past it.
pub fn choose_one(n: usize, prompt: &str, force: bool, interactive: bool, answers: &Vec<usize>, cursor: &mut usize) -> (r: Result<Choice, AppError>)
    ensures
        choice_matches(r, choice_result(n as int, prompt@, force, interactive, answer_at(answers@, *old(cursor) as int))),
        *final(cursor) == if takes_answer(n as int, force, interactive, answer_at(answers@, *old(cursor) as int)) {
            *old(cursor) + 1
        } else {
            *old(cursor) as int
        },
{
    if n == 0 {
        return Err(failure_message(prompt, ": 没有可用项"));
    }
    if n == 1 && !force {
        return Ok(Choice::Chosen(0));
    }
    if !interactive {
        return Err(failure_message(prompt, ": 存在多个候选项，非交互模式下必须显式指定"));
    }
    if *cursor >= answers.len() {
        return Ok(Choice::Ask);
    }
    let a = answers[*cursor];
    *cursor = *cursor + 1;
    if a < n {
        Ok(Choice::Chosen(a))
    } else {
        Err(failure_message(prompt, ": 所选序号超出候选范围"))
    }
}


/// `path` relative to `root` when `root` is a prefix of it, otherwise `path` itself.
pub open spec fn relative_spec(root: Seq<char>, path: Seq<char>) -> Seq<char> {
    match paths::path_strip_prefix(path, root) {
        Some(rest) => rest,
        None => path,
    }
}

/// `path` relative to `root` when `root` is a prefix of it, otherwise `path` itself.
pub fn relative(root: &String, path: &String) -> (r: String)
    ensures
        r@ == relative_spec(root@, path@),
        paths::path_strip_prefix(path@, root@) is Some && !paths::path_is_absolute(r@) ==> paths::path_eq(
            resolve_relative_spec(root@, r@),
            path@,
        ),
{
    match paths::strip_prefix(path, root) {
        Some(rest) => rest,
        None => path.clone(),
    }
}

/// `path` taken relative to `root` unless it is absolute.
pub open spec fn resolve_relative_spec(root: Seq<char>, path: Seq<char>) -> Seq<char> {
    if paths::path_is_absolute(path) {
        path
    } else {
        paths::path_join(root, path)
    }
}

/// `path` taken relative to `root` unless it is absolute.
pub fn resolve_relative(root: &String, path: &String) -> (r: String)
    ensures
        r@ == resolve_relative_spec(root@, path@),
{
    if paths::is_absolute(path) {
        path.clone()
    } else {
        paths::join(root, path.as_str())
    }
}

/// A path outside the root keeps its text in the relative form, and an absolute one comes
/// back unchanged when taken relative to the root again.
pub proof fn law_resolve_undoes_relative_outside_root(root: Seq<char>, p: Seq<char>)
    requires
        paths::path_is_absolute(p),
        paths::path_strip_prefix(p, root) is None,
    ensures
        relative_spec(root, p) == p,
        resolve_relative_spec(root, relative_spec(root, p)) == p,
{
}

/// The prompt for choosing a workspace.
pub open spec fn workspace_prompt() -> Seq<char> {
    "请选择 CDK Workspace"@
}

/// The prompt for choosing a project.
pub open spec fn project_prompt() -> Seq<char> {
    "请选择 CDK 项目"@
}

/// The prompt for choosing a build configuration.
pub open spec fn build_set_prompt() -> Seq<char> {
    "请选择 BuildSet"@
}

/// The first workspace whose path is `path`.
pub open spec fn workspace_at(report: ReportModel, path: Seq<char>) -> Option<int> {
    first_where(
        report.workspaces.len() as int,
        |i: int| paths::path_eq(report.workspaces[i].path, path),
    )
}

/// Which workspace a command acts on: the one at the remembered or named path (which must
/// be among those discovered), or a choice among all of them.
pub open spec fn workspace_choice(
    report: ReportModel,
    selected: Option<Seq<char>>,
    force: bool,
    interactive: bool,
    answer: Option<usize>,
) -> Result<Choice, Seq<char>> {
    match selected {
        Some(p) => match workspace_at(report, p) {
            Some(i) => Ok(Choice::Chosen(i as usize)),
            None => Err("配置的 workspace 不在发现结果中: "@ + p),
        },
        None => choice_result(report.workspaces.len() as int, workspace_prompt(), force, interactive, answer),
    }
}

/// Chooses the workspace (see `workspace_choice`); `selected` is the remembered or named
/// workspace file, already made canonical.
pub fn choose_workspace(
    report: &DiscoveryReport,
    selected: Option<String>,
    force_choose: bool,
    interactive: bool,
    answers: &Vec<usize>,
    cursor: &mut usize,
) -> (r: Result<Choice, AppError>)
    ensures
        choice_matches(r, workspace_choice(report@, selected.deep_view(), force_choose, interactive, answer_at(answers@, *old(cursor) as int))),
        *final(cursor) == if selected is None && takes_answer(report.workspaces.len() as int, force_choose, interactive, answer_at(answers@, *old(cursor) as int)) {
            *old(cursor) + 1
        } else {
            *old(cursor) as int
        },
{
    let ghost rep = report@;
    match selected {
        Some(path) => {
            let mut i: usize = 0;
            while i < report.workspaces.len()
                invariant
                    rep == report@,
                    *cursor == *old(cursor),
                    selected.deep_view() == Some(path@),
                    i <= report.workspaces.len(),
                    forall|j: int| 0 <= j < i ==> !paths::path_eq(#[trigger] rep.workspaces[j].path, path@),
                decreases report.workspaces.len() - i,
            {
                if paths::same_path(&report.workspaces[i].path, &path) {
                    proof {
                        lemma_first_where_found(
                            rep.workspaces.len() as int,
                            |k: int| paths::path_eq(rep.workspaces[k].path, path@),
                            i as int,
                        );
                    }
                    return Ok(Choice::Chosen(i));
                }
                i = i + 1;
            }
            proof {
                lemma_first_where_none(
                    rep.workspaces.len() as int,
                    |k: int| paths::path_eq(rep.workspaces[k].path, path@),
                );
            }
            let mut m = String::from_str("配置的 workspace 不在发现结果中: ");
            m.append(path.as_str());
            Err(AppError::Message(m))
        },
        None => choose_one(report.workspaces.len(), "请选择 CDK Workspace", force_choose, interactive, answers, cursor),
    }
}

/// The first standalone project whose file is `path`.
pub open spec fn standalone_at(report: ReportModel, path: Seq<char>) -> Option<int> {
    first_where(
        report.standalone_projects.len() as int,
        |i: int| paths::path_eq(report.standalone_projects[i].path, path),
    )
}

/// Which standalone project a command acts on: the one at the remembered or named file
/// (which must be among those discovered), or a choice among all of them.
pub open spec fn standalone_choice(
    report: ReportModel,
    selected: Option<Seq<char>>,
    force: bool,
    interactive: bool,
    answer: Option<usize>,
) -> Result<Choice, Seq<char>> {
    match selected {
        Some(p) => match standalone_at(report, p) {
            Some(i) => Ok(Choice::Chosen(i as usize)),
            None => Err("配置的项目不在发现结果中: "@ + p),
        },
        None => choice_result(report.standalone_projects.len() as int, project_prompt(), force, interactive, answer),
    }
}

/// Chooses the standalone project (see `standalone_choice`); `selected` is the remembered
/// or named project file, already made canonical.
pub fn choose_standalone(
    report: &DiscoveryReport,
    selected: Option<String>,
    force_choose: bool,
    interactive: bool,
    answers: &Vec<usize>,
    cursor: &mut usize,
) -> (r: Result<Choice, AppError>)
    ensures
        choice_matches(r, standalone_choice(report@, selected.deep_view(), force_choose, interactive, answer_at(answers@, *old(cursor) as int))),
        *final(cursor) == if selected is None && takes_answer(report.standalone_projects.len() as int, force_choose, interactive, answer_at(answers@, *old(cursor) as int)) {
            *old(cursor) + 1
        } else {
            *old(cursor) as int
        },
{
    let ghost rep = report@;
    match selected {
        Some(path) => {
            let mut i: usize = 0;
            while i < report.standalone_projects.len()
                invariant
                    rep == report@,
                    *cursor == *old(cursor),
                    selected.deep_view() == Some(path@),
                    i <= report.standalone_projects.len(),
                    forall|j: int| 0 <= j < i ==> !paths::path_eq(#[trigger] rep.standalone_projects[j].path, path@),
                decreases report.standalone_projects.len() - i,
            {
                if paths::same_path(&report.standalone_projects[i].path, &path) {
                    proof {
                        lemma_first_where_found(
                            rep.standalone_projects.len() as int,
                            |k: int| paths::path_eq(rep.standalone_projects[k].path, path@),
                            i as int,
                        );
                    }
                    return Ok(Choice::Chosen(i));
                }
                i = i + 1;
            }
            proof {
                lemma_first_where_none(
                    rep.standalone_projects.len() as int,
                    |k: int| paths::path_eq(rep.standalone_projects[k].path, path@),
                );
            }
            let mut m = String::from_str("配置的项目不在发现结果中: ");
            m.append(path.as_str());
            Err(AppError::Message(m))
        },
        None => choose_one(report.standalone_projects.len(), "请选择 CDK 项目", force_choose, interactive, answers, cursor),
    }
}


/// The first project of a workspace named `name`.
pub open spec fn project_named(ws: WorkspaceModelInfo, name: Seq<char>) -> Option<int> {
    first_where(ws.projects.len() as int, |i: int| ws.projects[i].name == name)
}

/// Which project of a workspace a command acts on: the remembered or named one (which must
/// exist), else the workspace's active project unless the user must choose, else a choice
/// among all of them.
pub open spec fn project_choice(
    ws: WorkspaceModelInfo,
    selected: Option<Seq<char>>,
    force: bool,
    interactive: bool,
    answer: Option<usize>,
) -> Result<Choice, Seq<char>> {
    match selected {
        Some(name) => match project_named(ws, name) {
            Some(i) => Ok(Choice::Chosen(i as usize)),
            None => Err("workspace 中不存在项目: "@ + name),
        },
        None => if !force && ws.active_project is Some && project_named(ws, ws.active_project->0) is Some {
            Ok(Choice::Chosen(project_named(ws, ws.active_project->0)->0 as usize))
        } else {
            choice_result(ws.projects.len() as int, project_prompt(), force, interactive, answer)
        },
    }
}

/// Whether choosing a project asks the question at the cursor.
pub open spec fn project_takes_answer(ws: WorkspaceModelInfo, selected: Option<Seq<char>>, force: bool, interactive: bool, answer: Option<usize>) -> bool {
    &&& selected is None
    &&& !(!force && ws.active_project is Some && project_named(ws, ws.active_project->0) is Some)
    &&& takes_answer(ws.projects.len() as int, force, interactive, answer)
}

fn find_project(workspace: &WorkspaceInfo, name: &String) -> (r: Option<usize>)
    ensures
        r == match project_named(workspace@, name@) {
            Some(i) => Some(i as usize),
            None => None::<usize>,
        },
{
    let ghost ws = workspace@;
    let mut i: usize = 0;
    while i < workspace.projects.len()
        invariant
            ws == workspace@,
            i <= workspace.projects.len(),
            forall|j: int| 0 <= j < i ==> #[trigger] ws.projects[j].name != name@,
        decreases workspace.projects.len() - i,
    {
        if workspace.projects[i].name == *name {
            proof {
                lemma_first_where_found(ws.projects.len() as int, |k: int| ws.projects[k].name == name@, i as int);
            }
            return Some(i);
        }
        i = i + 1;
    }
    proof {
        lemma_first_where_none(ws.projects.len() as int, |k: int| ws.projects[k].name == name@);
    }
    None
}

/// Chooses the project of a workspace (see `project_choice`).
pub fn choose_project(
    workspace: &WorkspaceInfo,
    selected: Option<&String>,
    force_choose: bool,
    interactive: bool,
    answers: &Vec<usize>,
    cursor: &mut usize,
) -> (r: Result<Choice, AppError>)
    ensures
        choice_matches(r, project_choice(workspace@, match selected { Some(s) => Some(s@), None => None }, force_choose, interactive, answer_at(answers@, *old(cursor) as int))),
        *final(cursor) == if project_takes_answer(workspace@, match selected { Some(s) => Some(s@), None => None }, force_choose, interactive, answer_at(answers@, *old(cursor) as int)) {
            *old(cursor) + 1
        } else {
            *old(cursor) as int
        },
{
    if let Some(name) = selected {
        return match find_project(workspace, name) {
            Some(i) => Ok(Choice::Chosen(i)),
            None => {
                let mut m = String::from_str("workspace 中不存在项目: ");
                m.append(name.as_str());
                Err(AppError::Message(m))
            },
        };
    }
    if !force_choose {
        if let Some(active) = &workspace.active_project {
            if let Some(i) = find_project(workspace, active) {
                return Ok(Choice::Chosen(i));
            }
        }
    }
    choose_one(workspace.projects.len(), "请选择 CDK 项目", force_choose, interactive, answers, cursor)
}

/// The build configuration a command uses, or the question to ask for it.
#[derive(Clone, Debug)]
pub enum ConfigChoice {
    Named(String),
    Ask,
}

/// The model of a build-configuration choice: the configuration's name, or a question.
pub enum ConfigChoiceModel {
    Named(Seq<char>),
    Ask,
}

/// Which build configuration a command uses: the remembered or named one (which the project
/// must have), else the project's default unless the user must choose, else a choice among
/// the project's configurations.
pub open spec fn build_config_choice(
    project: ProjectModelInfo,
    selected: Option<Seq<char>>,
    force: bool,
    interactive: bool,
    answer: Option<usize>,
) -> Result<ConfigChoiceModel, Seq<char>> {
    match selected {
        Some(name) => if project.build_configs.contains(name) {
            Ok(ConfigChoiceModel::Named(name))
        } else {
            Err("项目 "@ + project.name + " 中不存在 BuildSet: "@ + name)
        },
        None => if !force && project.default_build_config is Some {
            Ok(ConfigChoiceModel::Named(project.default_build_config->0))
        } else {
            match choice_result(project.build_configs.len() as int, build_set_prompt(), force, interactive, answer) {
                Ok(Choice::Chosen(i)) => Ok(ConfigChoiceModel::Named(project.build_configs[i as int])),
                Ok(Choice::Ask) => Ok(ConfigChoiceModel::Ask),
                Err(e) => Err(e),
            }
        },
    }
}

/// Whether choosing a build configuration asks the question at the cursor.
pub open spec fn build_config_takes_answer(project: ProjectModelInfo, selected: Option<Seq<char>>, force: bool, interactive: bool, answer: Option<usize>) -> bool {
    &&& selected is None
    &&& !(!force && project.default_build_config is Some)
    &&& takes_answer(project.build_configs.len() as int, force, interactive, answer)
}

/// Whether a returned build-configuration choice matches its model.
pub open spec fn config_choice_matches(r: Result<ConfigChoice, AppError>, expected: Result<ConfigChoiceModel, Seq<char>>) -> bool {
    match expected {
        Ok(ConfigChoiceModel::Named(n)) => r matches Ok(ConfigChoice::Named(s)) && s@ == n,
        Ok(ConfigChoiceModel::Ask) => r matches Ok(ConfigChoice::Ask),
        Err(text) => r matches Err(AppError::Message(m)) && m@ == text,
    }
}

/// Chooses the build configuration of a project (see `build_config_choice`).
pub fn choose_build_config(
    project: &ProjectInfo,
    selected: Option<&String>,
    force_choose: bool,
    interactive: bool,
    answers: &Vec<usize>,
    cursor: &mut usize,
) -> (r: Result<ConfigChoice, AppError>)
    ensures
        config_choice_matches(r, build_config_choice(project@, match selected { Some(s) => Some(s@), None => None }, force_choose, interactive, answer_at(answers@, *old(cursor) as int))),
        *final(cursor) == if build_config_takes_answer(project@, match selected { Some(s) => Some(s@), None => None }, force_choose, interactive, answer_at(answers@, *old(cursor) as int)) {
            *old(cursor) + 1
        } else {
            *old(cursor) as int
        },
{
    if let Some(name) = selected {
        let mut i: usize = 0;
        while i < project.build_configs.len()
            invariant
                *cursor == *old(cursor),
                selected == Some(name),
                i <= project.build_configs.len(),
                forall|j: int| 0 <= j < i ==> project.build_configs.deep_view()[j] != name@,
            decreases project.build_configs.len() - i,
        {
            if project.build_configs[i] == *name {
                assert(project.build_configs.deep_view()[i as int] == name@);
                return Ok(ConfigChoice::Named(project.build_configs[i].clone()));
            }
            i = i + 1;
        }
        let mut m = String::from_str("项目 ");
        m.append(project.name.as_str());
        m.append(" 中不存在 BuildSet: ");
        m.append(name.as_str());
        return Err(AppError::Message(m));
    }
    if !force_choose {
        if let Some(default) = &project.default_build_config {
            return Ok(ConfigChoice::Named(default.clone()));
        }
    }
    match choose_one(project.build_configs.len(), "请选择 BuildSet", force_choose, interactive, answers, cursor) {
        Ok(Choice::Chosen(i)) => Ok(ConfigChoice::Named(project.build_configs[i].clone())),
        Ok(Choice::Ask) => Ok(ConfigChoice::Ask),
        Err(e) => Err(e),
    }
}


/// The options of `build`, `clean`, `rebuild` and `configure`.
#[derive(Clone, Debug)]
pub struct RunArgs {
    pub root: String,
    pub workspace: Option<String>,
    pub project: Option<String>,
    pub project_file: Option<String>,
    pub build_config: Option<String>,
    pub all: bool,
    pub verbose: bool,
    pub dry_run: bool,
    pub extra: Vec<String>,
}

impl Default for RunArgs {
    fn default() -> (r: Self)
        ensures
            r.root@.len() == 0,
            r.workspace is None,
            r.project is None,
            r.project_file is None,
            r.build_config is None,
            !r.all,
            !r.verbose,
            !r.dry_run,
            r.extra@.len() == 0,
    {
        RunArgs {
            root: String::new(),
            workspace: None,
            project: None,
            project_file: None,
            build_config: None,
            all: false,
            verbose: false,
            dry_run: false,
            extra: Vec::new(),
        }
    }
}

/// The workspace and project files named on the command line and remembered in the local
/// configuration.
#[derive(Clone, Debug)]
pub struct Selection {
    pub explicit_workspace: Option<String>,
    pub configured_workspace: Option<String>,
    pub explicit_project_file: Option<String>,
    pub configured_project_file: Option<String>,
}

/// An optional path taken relative to `root` unless absolute.
pub open spec fn resolve_option_spec(root: Seq<char>, path: Option<Seq<char>>) -> Option<Seq<char>> {
    match path {
        Some(p) => Some(resolve_relative_spec(root, p)),
        None => None,
    }
}

fn resolve_option(root: &String, path: &Option<String>) -> (r: Option<String>)
    ensures
        r.deep_view() == match path {
            Some(p) => Some(resolve_relative_spec(root@, p@)),
            None => None,
        },
{
    match path {
        Some(p) => Some(resolve_relative(root, p)),
        None => None,
    }
}

/// The named and remembered workspace and project files, each taken relative to the
/// local root unless absolute.
pub fn selection_paths(args: &RunArgs, existing: &LocalConfig, local_root: &String) -> (r: Selection)
    ensures
        r.explicit_workspace.deep_view() == resolve_option_spec(local_root@, args.workspace.deep_view()),
        r.configured_workspace.deep_view() == resolve_option_spec(local_root@, existing.workspace.deep_view()),
        r.explicit_project_file.deep_view() == resolve_option_spec(local_root@, args.project_file.deep_view()),
        r.configured_project_file.deep_view() == resolve_option_spec(local_root@, existing.project_file.deep_view()),
{
    Selection {
        explicit_workspace: resolve_option(local_root, &args.workspace),
        configured_workspace: resolve_option(local_root, &existing.workspace),
        explicit_project_file: resolve_option(local_root, &args.project_file),
        configured_project_file: resolve_option(local_root, &existing.project_file),
    }
}

/// The root that a run works from, and the local configuration found there: the root of
/// the configuration found above `start`, or `start` with the default configuration.
pub fn selection_base(start: String, loaded: Option<(String, LocalConfig)>) -> (r: (String, LocalConfig))
    ensures
        match loaded {
            Some((root, local)) => r.0@ == root@ && r.1@ == local@,
            None => r.0@ == start@ && r.1@ == LocalModel {
                schema_version: 1,
                workspace: None,
                project_file: None,
                project: None,
                build_config: None,
                action: None,
                all: false,
            },
        },
{
    match loaded {
        Some((root, local)) => (root, local),
        None => (start, LocalConfig::default()),
    }
}

/// A question for the user: a prompt and the labels of the candidates.
#[derive(Clone, Debug)]
pub struct Question {
    pub prompt: String,
    pub labels: Vec<String>,
}

/// A prepared run: the call of `cdk-make`, and the selection to remember at the local root.
#[derive(Clone, Debug)]
pub struct Prepared {
    pub invocation: Invocation,
    pub local_root: String,
    pub local: LocalConfig,
}

/// What preparing a run comes to: the run, or a question the user must answer first.
#[derive(Clone, Debug)]
pub enum PrepareStep {
    Ready(Prepared),
    Ask(Question),
}

/// The model of a prepared run.
pub struct PreparedModel {
    pub invocation: InvocationModel,
    pub local_root: Seq<char>,
    pub local: LocalModel,
}

/// The model of a preparation step.
pub enum StepModel {
    Ready(PreparedModel),
    Ask(Seq<char>, Seq<Seq<char>>),
}

/// Whether a returned preparation step matches its model.
pub open spec fn step_matches(r: Result<PrepareStep, AppError>, expected: Result<StepModel, Seq<char>>) -> bool {
    match expected {
        Ok(StepModel::Ready(m)) => r matches Ok(PrepareStep::Ready(p)) && p.invocation@ == m.invocation
            && p.local_root@ == m.local_root && p.local@ == m.local,
        Ok(StepModel::Ask(prompt, labels)) => r matches Ok(PrepareStep::Ask(q)) && q.prompt@ == prompt
            && q.labels.deep_view() == labels,
        Err(text) => r matches Err(AppError::Message(m)) && m@ == text,
    }
}

/// The first present of two optional texts.
pub open spec fn first_of(a: Option<Seq<char>>, b: Option<Seq<char>>) -> Option<Seq<char>> {
    if a is Some {
        a
    } else {
        b
    }
}

/// The labels of the workspaces: their paths relative to the discovery root.
pub open spec fn workspace_labels(report: ReportModel) -> Seq<Seq<char>> {
    Seq::new(report.workspaces.len(), |i: int| relative_spec(report.root, report.workspaces[i].path))
}

/// The labels of the standalone projects: their files relative to the discovery root.
pub open spec fn standalone_labels(report: ReportModel) -> Seq<Seq<char>> {
    Seq::new(report.standalone_projects.len(), |i: int| relative_spec(report.root, report.standalone_projects[i].path))
}

/// The labels of a workspace's projects: their names.
pub open spec fn project_labels(ws: WorkspaceModelInfo) -> Seq<Seq<char>> {
    Seq::new(ws.projects.len(), |i: int| ws.projects[i].name)
}

/// A run acts on a standalone project when a project file is named, when only a project
/// file is remembered, or when discovery found projects but no workspace.
pub open spec fn targets_standalone(sel: Selection, report: ReportModel) -> bool {
    ||| sel.explicit_project_file is Some
    ||| sel.explicit_workspace is None && sel.configured_workspace is None && sel.configured_project_file is Some
    ||| report.workspaces.len() == 0 && report.standalone_projects.len() != 0
}

/// A workspace run builds all of the workspace's projects when `--all` is given, or when
/// the remembered selection says so and neither a project nor a build configuration is
/// named and the user is not made to choose.
pub open spec fn builds_all(args: RunArgs, existing: LocalConfig, force: bool) -> bool {
    args.all || (args.project is None && args.build_config is None && !force && existing.all)
}

/// The invocation for a target.
pub open spec fn invocation_for(args: RunArgs, action: BuildAction, executable: Seq<char>, target: TargetModel) -> InvocationModel {
    InvocationModel { executable, action, target, verbose: args.verbose, extra: args.extra.deep_view() }
}

/// The run on a standalone project, or the question or error on the way to it.
pub open spec fn standalone_run(
    args: RunArgs, action: BuildAction, report: ReportModel, existing: LocalConfig, local_root: Seq<char>,
    executable: Seq<char>, sel: Selection, force: bool, interactive: bool, answers: Seq<usize>,
) -> Result<StepModel, Seq<char>> {
    let selected = first_of(sel.explicit_project_file.deep_view(), sel.configured_project_file.deep_view());
    match standalone_choice(report, selected, force, interactive, answer_at(answers, 0)) {
        Err(e) => Err(e),
        Ok(Choice::Ask) => Ok(StepModel::Ask(project_prompt(), standalone_labels(report))),
        Ok(Choice::Chosen(i)) => {
            let project = report.standalone_projects[i as int];
            let next = if selected is None && takes_answer(report.standalone_projects.len() as int, force, interactive, answer_at(answers, 0)) { 1int } else { 0int };
            let named = first_of(args.build_config.deep_view(), existing.build_config.deep_view());
            match build_config_choice(project, named, force, interactive, answer_at(answers, next)) {
                Err(e) => Err(e),
                Ok(ConfigChoiceModel::Ask) => Ok(StepModel::Ask(build_set_prompt(), project.build_configs)),
                Ok(ConfigChoiceModel::Named(config)) => Ok(StepModel::Ready(PreparedModel {
                    invocation: invocation_for(args, action, executable, TargetModel::Project { path: project.path, build_config: config }),
                    local_root,
                    local: LocalModel {
                        schema_version: 1,
                        workspace: None,
                        project_file: Some(relative_spec(local_root, project.path)),
                        project: None,
                        build_config: Some(config),
                        action: Some(action),
                        all: false,
                    },
                })),
            }
        },
    }
}

/// The run on a workspace, or the question or error on the way to it.
pub open spec fn workspace_run(
    args: RunArgs, action: BuildAction, report: ReportModel, existing: LocalConfig, local_root: Seq<char>,
    executable: Seq<char>, sel: Selection, force: bool, interactive: bool, answers: Seq<usize>,
) -> Result<StepModel, Seq<char>> {
    let selected = first_of(sel.explicit_workspace.deep_view(), sel.configured_workspace.deep_view());
    match workspace_choice(report, selected, force, interactive, answer_at(answers, 0)) {
        Err(e) => Err(e),
        Ok(Choice::Ask) => Ok(StepModel::Ask(workspace_prompt(), workspace_labels(report))),
        Ok(Choice::Chosen(w)) => {
            let ws = report.workspaces[w as int];
            let c1 = if selected is None && takes_answer(report.workspaces.len() as int, force, interactive, answer_at(answers, 0)) { 1int } else { 0int };
            if builds_all(args, existing, force) {
                Ok(StepModel::Ready(PreparedModel {
                    invocation: invocation_for(args, action, executable, TargetModel::Workspace { path: ws.path, project: None, build_config: None, all: true }),
                    local_root,
                    local: LocalModel {
                        schema_version: 1,
                        workspace: Some(relative_spec(local_root, ws.path)),
                        project_file: None,
                        project: None,
                        build_config: None,
                        action: Some(action),
                        all: true,
                    },
                }))
            } else {
                let named_project = first_of(args.project.deep_view(), existing.project.deep_view());
                match project_choice(ws, named_project, force, interactive, answer_at(answers, c1)) {
                    Err(e) => Err(e),
                    Ok(Choice::Ask) => Ok(StepModel::Ask(project_prompt(), project_labels(ws))),
                    Ok(Choice::Chosen(p)) => {
                        let project = ws.projects[p as int];
                        let c2 = if project_takes_answer(ws, named_project, force, interactive, answer_at(answers, c1)) { c1 + 1 } else { c1 };
                        let named = first_of(args.build_config.deep_view(), existing.build_config.deep_view());
                        match build_config_choice(project, named, force, interactive, answer_at(answers, c2)) {
                            Err(e) => Err(e),
                            Ok(ConfigChoiceModel::Ask) => Ok(StepModel::Ask(build_set_prompt(), project.build_configs)),
                            Ok(ConfigChoiceModel::Named(config)) => Ok(StepModel::Ready(PreparedModel {
                                invocation: invocation_for(args, action, executable, TargetModel::Workspace {
                                    path: ws.path,
                                    project: Some(project.name),
                                    build_config: Some(config),
                                    all: false,
                                }),
                                local_root,
                                local: LocalModel {
                                    schema_version: 1,
                                    workspace: Some(relative_spec(local_root, ws.path)),
                                    project_file: None,
                                    project: Some(project.name),
                                    build_config: Some(config),
                                    action: Some(action),
                                    all: false,
                                },
                            })),
                        }
                    },
                }
            }
        },
    }
}

/// The run that a command prepares, or the next question, or the error.
pub open spec fn prepare_spec(
    args: RunArgs, action: BuildAction, report: ReportModel, existing: LocalConfig, local_root: Seq<char>,
    executable: Seq<char>, sel: Selection, force: bool, interactive: bool, answers: Seq<usize>,
) -> Result<StepModel, Seq<char>> {
    if targets_standalone(sel, report) {
        standalone_run(args, action, report, existing, local_root, executable, sel, force, interactive, answers)
    } else {
        workspace_run(args, action, report, existing, local_root, executable, sel, force, interactive, answers)
    }
}


fn first_present(a: &Option<String>, b: &Option<String>) -> (r: Option<String>)
    ensures
        r.deep_view() == first_of(a.deep_view(), b.deep_view()),
{
    match a {
        Some(x) => Some(x.clone()),
        None => b.clone(),
    }
}

fn first_present_ref<'a>(a: &'a Option<String>, b: &'a Option<String>) -> (r: Option<&'a String>)
    ensures
        match r { Some(s) => Some(s@), None => None::<Seq<char>> } == first_of(a.deep_view(), b.deep_view()),
{
    match a {
        Some(x) => Some(x),
        None => match b {
            Some(y) => Some(y),
            None => None,
        },
    }
}

fn copy_texts(v: &Vec<String>) -> (r: Vec<String>)
    ensures
        r.deep_view() == v.deep_view(),
{
    let mut out: Vec<String> = Vec::new();
    let mut i: usize = 0;
    while i < v.len()
        invariant
            i <= v.len(),
            out.deep_view() == v.deep_view().take(i as int),
        decreases v.len() - i,
    {
        let ghost before = out.deep_view();
        out.push(v[i].clone());
        assert(out.deep_view() =~= before.push(v@[i as int]@));
        i = i + 1;
        assert(out.deep_view() =~= v.deep_view().take(i as int));
    }
    assert(v.deep_view().take(v.len() as int) =~= v.deep_view());
    out
}

fn workspace_labels_of(report: &DiscoveryReport) -> (r: Vec<String>)
    ensures
        r.deep_view() == workspace_labels(report@),
{
    let ghost rep = report@;
    let mut out: Vec<String> = Vec::new();
    let mut i: usize = 0;
    while i < report.workspaces.len()
        invariant
            rep == report@,
            i <= report.workspaces.len(),
            out.deep_view() == workspace_labels(rep).take(i as int),
        decreases report.workspaces.len() - i,
    {
        let ghost before = out.deep_view();
        let item = relative(&report.root, &report.workspaces[i].path);
        assert(item@ == relative_spec(rep.root, rep.workspaces[i as int].path));
        out.push(item);
        assert(out.deep_view() =~= before.push(relative_spec(rep.root, rep.workspaces[i as int].path)));
        i = i + 1;
        assert(out.deep_view() =~= workspace_labels(rep).take(i as int));
    }
    assert(workspace_labels(rep).take(report.workspaces.len() as int) =~= workspace_labels(rep));
    out
}

fn standalone_labels_of(report: &DiscoveryReport) -> (r: Vec<String>)
    ensures
        r.deep_view() == standalone_labels(report@),
{
    let ghost rep = report@;
    let mut out: Vec<String> = Vec::new();
    let mut i: usize = 0;
    while i < report.standalone_projects.len()
        invariant
            rep == report@,
            i <= report.standalone_projects.len(),
            out.deep_view() == standalone_labels(rep).take(i as int),
        decreases report.standalone_projects.len() - i,
    {
        let ghost before = out.deep_view();
        let item = relative(&report.root, &report.standalone_projects[i].path);
        assert(item@ == relative_spec(rep.root, rep.standalone_projects[i as int].path));
        out.push(item);
        assert(out.deep_view() =~= before.push(relative_spec(rep.root, rep.standalone_projects[i as int].path)));
        i = i + 1;
        assert(out.deep_view() =~= standalone_labels(rep).take(i as int));
    }
    assert(standalone_labels(rep).take(report.standalone_projects.len() as int) =~= standalone_labels(rep));
    out
}

fn project_labels_of(workspace: &WorkspaceInfo) -> (r: Vec<String>)
    ensures
        r.deep_view() == project_labels(workspace@),
{
    let ghost ws = workspace@;
    let mut out: Vec<String> = Vec::new();
    let mut i: usize = 0;
    while i < workspace.projects.len()
        invariant
            ws == workspace@,
            i <= workspace.projects.len(),
            out.deep_view() == project_labels(ws).take(i as int),
        decreases workspace.projects.len() - i,
    {
        let ghost before = out.deep_view();
        let item = workspace.projects[i].name.clone();
        assert(item@ == ws.projects[i as int].name);
        out.push(item);
        assert(out.deep_view() =~= before.push(ws.projects[i as int].name));
        i = i + 1;
        assert(out.deep_view() =~= project_labels(ws).take(i as int));
    }
    assert(project_labels(ws).take(workspace.projects.len() as int) =~= project_labels(ws));
    out
}

fn ask(prompt: &str, labels: Vec<String>) -> (r: Result<PrepareStep, AppError>)
    ensures
        r matches Ok(PrepareStep::Ask(q)) && q.prompt@ == prompt@ && q.labels.deep_view() == labels.deep_view(),
{
    Ok(PrepareStep::Ask(Question { prompt: String::from_str(prompt), labels }))
}

fn invocation(args: &RunArgs, action: BuildAction, executable: &String, target: BuildTarget) -> (r: Invocation)
    ensures
        r@ == invocation_for(*args, action, executable@, target@),
{
    Invocation {
        executable: executable.clone(),
        action,
        target,
        verbose: args.verbose,
        extra: copy_texts(&args.extra),
    }
}

fn standalone_step(
    args: &RunArgs, action: BuildAction, report: &DiscoveryReport, existing: &LocalConfig, local_root: &String,
    executable: &String, sel: &Selection, force_choose: bool, interactive: bool, answers: &Vec<usize>,
) -> (r: Result<PrepareStep, AppError>)
    ensures
        step_matches(r, standalone_run(*args, action, report@, *existing, local_root@, executable@, *sel, force_choose, interactive, answers@)),
{
    let mut cursor: usize = 0;
    let selected = first_present(&sel.explicit_project_file, &sel.configured_project_file);
    let index = match choose_standalone(report, selected, force_choose, interactive, answers, &mut cursor) {
        Err(e) => {
            return Err(e);
        },
        Ok(Choice::Ask) => {
            return ask("请选择 CDK 项目", standalone_labels_of(report));
        },
        Ok(Choice::Chosen(i)) => i,
    };
    let project = &report.standalone_projects[index];
    assert(report@.standalone_projects[index as int] == project@);
    let named = first_present_ref(&args.build_config, &existing.build_config);
    let config = match choose_build_config(project, named, force_choose, interactive, answers, &mut cursor) {
        Err(e) => {
            return Err(e);
        },
        Ok(ConfigChoice::Ask) => {
            return ask("请选择 BuildSet", copy_texts(&project.build_configs));
        },
        Ok(ConfigChoice::Named(c)) => c,
    };
    let target = BuildTarget::Project { path: project.path.clone(), build_config: config.clone() };
    let mut local = LocalConfig::default();
    local.project_file = Some(relative(local_root, &project.path));
    local.build_config = Some(config);
    local.action = Some(action);
    Ok(PrepareStep::Ready(Prepared {
        invocation: invocation(args, action, executable, target),
        local_root: local_root.clone(),
        local,
    }))
}

fn workspace_step(
    args: &RunArgs, action: BuildAction, report: &DiscoveryReport, existing: &LocalConfig, local_root: &String,
    executable: &String, sel: &Selection, force_choose: bool, interactive: bool, answers: &Vec<usize>,
) -> (r: Result<PrepareStep, AppError>)
    ensures
        step_matches(r, workspace_run(*args, action, report@, *existing, local_root@, executable@, *sel, force_choose, interactive, answers@)),
{
    let mut cursor: usize = 0;
    let selected = first_present(&sel.explicit_workspace, &sel.configured_workspace);
    let index = match choose_workspace(report, selected, force_choose, interactive, answers, &mut cursor) {
        Err(e) => {
            return Err(e);
        },
        Ok(Choice::Ask) => {
            return ask("请选择 CDK Workspace", workspace_labels_of(report));
        },
        Ok(Choice::Chosen(i)) => i,
    };
    let workspace = &report.workspaces[index];
    assert(report@.workspaces[index as int] == workspace@);
    let build_all = args.all || (args.project.is_none() && args.build_config.is_none() && !force_choose && existing.all);
    if build_all {
        let target = BuildTarget::Workspace { path: workspace.path.clone(), project: None, build_config: None, all: true };
        let mut local = LocalConfig::default();
        local.workspace = Some(relative(local_root, &workspace.path));
        local.action = Some(action);
        local.all = true;
        return Ok(PrepareStep::Ready(Prepared {
            invocation: invocation(args, action, executable, target),
            local_root: local_root.clone(),
            local,
        }));
    }
    let named_project = first_present_ref(&args.project, &existing.project);
    let project_index = match choose_project(workspace, named_project, force_choose, interactive, answers, &mut cursor) {
        Err(e) => {
            return Err(e);
        },
        Ok(Choice::Ask) => {
            return ask("请选择 CDK 项目", project_labels_of(workspace));
        },
        Ok(Choice::Chosen(i)) => i,
    };
    let project = &workspace.projects[project_index];
    assert(workspace@.projects[project_index as int] == project@);
    let named = first_present_ref(&args.build_config, &existing.build_config);
    let config = match choose_build_config(project, named, force_choose, interactive, answers, &mut cursor) {
        Err(e) => {
            return Err(e);
        },
        Ok(ConfigChoice::Ask) => {
            return ask("请选择 BuildSet", copy_texts(&project.build_configs));
        },
        Ok(ConfigChoice::Named(c)) => c,
    };
    let target = BuildTarget::Workspace {
        path: workspace.path.clone(),
        project: Some(project.name.clone()),
        build_config: Some(config.clone()),
        all: false,
    };
    let mut local = LocalConfig::default();
    local.workspace = Some(relative(local_root, &workspace.path));
    local.project = Some(project.name.clone());
    local.build_config = Some(config);
    local.action = Some(action);
    Ok(PrepareStep::Ready(Prepared {
        invocation: invocation(args, action, executable, target),
        local_root: local_root.clone(),
        local,
    }))
}

/// Prepares a run (see `prepare_spec`): picks the target, the call of `cdk-make` and the
/// selection to remember. `sel` holds the named and remembered files of
/// `selection_paths`, each made canonical; `interactive` says whether the user can be
/// asked; `answers` are the user's answers to the questions asked so far, in order.
pub fn prepare(
    args: &RunArgs,
    action: BuildAction,
    report: &DiscoveryReport,
    existing: &LocalConfig,
    local_root: &String,
    executable: &String,
    sel: &Selection,
    force_choose: bool,
    interactive: bool,
    answers: &Vec<usize>,
) -> (r: Result<PrepareStep, AppError>)
    ensures
        step_matches(r, prepare_spec(*args, action, report@, *existing, local_root@, executable@, *sel, force_choose, interactive, answers@)),
{
    let standalone = sel.explicit_project_file.is_some()
        || (sel.explicit_workspace.is_none() && sel.configured_workspace.is_none() && sel.configured_project_file.is_some())
        || (report.workspaces.len() == 0 && report.standalone_projects.len() != 0);
    if standalone {
        standalone_step(args, action, report, existing, local_root, executable, sel, force_choose, interactive, answers)
    } else {
        workspace_step(args, action, report, existing, local_root, executable, sel, force_choose, interactive, answers)
    }
}


/// The line of a workspace's project in the text report.
pub open spec fn member_line(p: ProjectModelInfo) -> Seq<char> {
    "  Project: "@ + p.name + " ["@ + join(p.build_configs, ", "@) + "]"@
}

/// The lines of one workspace in the text report: the workspace, then its projects.
pub open spec fn workspace_lines(w: WorkspaceModelInfo) -> Seq<Seq<char>> {
    seq!["Workspace: "@ + w.name + " ("@ + w.path + ")"@] + Seq::new(w.projects.len(), |i: int| member_line(w.projects[i]))
}

/// The lines of all workspaces, in order.
pub open spec fn workspaces_lines(ws: Seq<WorkspaceModelInfo>) -> Seq<Seq<char>>
    decreases ws.len(),
{
    if ws.len() == 0 {
        Seq::empty()
    } else {
        workspaces_lines(ws.drop_last()) + workspace_lines(ws.last())
    }
}

/// The line of a standalone project in the text report.
pub open spec fn standalone_line(p: ProjectModelInfo) -> Seq<char> {
    "Project: "@ + p.name + " ("@ + p.path + ") ["@ + join(p.build_configs, ", "@) + "]"@
}

/// The text report of a discovery: the root, each workspace with its projects, and the
/// standalone projects.
pub open spec fn report_text(report: ReportModel) -> Seq<Seq<char>> {
    seq!["Root: "@ + report.root] + workspaces_lines(report.workspaces) + Seq::new(
        report.standalone_projects.len(),
        |i: int| standalone_line(report.standalone_projects[i]),
    )
}

fn project_line(prefix: &str, p: &ProjectInfo, with_path: bool) -> (r: String)
    ensures
        with_path ==> r@ == prefix@ + p.name@ + " ("@ + p.path@ + ") ["@ + join(p.build_configs.deep_view(), ", "@) + "]"@,
        !with_path ==> r@ == prefix@ + p.name@ + " ["@ + join(p.build_configs.deep_view(), ", "@) + "]"@,
{
    let mut r = String::from_str(prefix);
    r.append(p.name.as_str());
    if with_path {
        r.append(" (");
        r.append(p.path.as_str());
        r.append(") [");
    } else {
        r.append(" [");
    }
    let configs = join_texts(&p.build_configs, ", ");
    r.append(configs.as_str());
    r.append("]");
    r
}

/// The lines of the text report of a discovery (see `report_text`).
pub fn report_lines(report: &DiscoveryReport) -> (r: Vec<String>)
    ensures
        r.deep_view() == report_text(report@),
{
    let ghost rep = report@;
    let mut out: Vec<String> = Vec::new();
    let mut first = String::from_str("Root: ");
    first.append(report.root.as_str());
    out.push(first);
    assert(out.deep_view() =~= seq!["Root: "@ + rep.root] + workspaces_lines(rep.workspaces.take(0)));
    let mut w: usize = 0;
    while w < report.workspaces.len()
        invariant
            rep == report@,
            w <= report.workspaces.len(),
            out.deep_view() == seq!["Root: "@ + rep.root] + workspaces_lines(rep.workspaces.take(w as int)),
        decreases report.workspaces.len() - w,
    {
        let ws = &report.workspaces[w];
        assert(rep.workspaces[w as int] == ws@);
        let ghost before = out.deep_view();
        let mut head = String::from_str("Workspace: ");
        head.append(ws.name.as_str());
        head.append(" (");
        head.append(ws.path.as_str());
        head.append(")");
        out.push(head);
        assert(out.deep_view() =~= before + seq![workspace_lines(ws@)[0]]);
        let mut k: usize = 0;
        while k < ws.projects.len()
            invariant
                rep == report@,
                ws@ == rep.workspaces[w as int],
                w < report.workspaces.len(),
                k <= ws.projects.len(),
                out.deep_view() == before + workspace_lines(ws@).take(k + 1),
            decreases ws.projects.len() - k,
        {
            let ghost mid = out.deep_view();
            let line = project_line("  Project: ", &ws.projects[k], false);
            assert(line@ == member_line(ws@.projects[k as int]));
            out.push(line);
            assert(out.deep_view() =~= mid.push(line@));
            k = k + 1;
            assert(workspace_lines(ws@).take(k + 1) =~= workspace_lines(ws@).take(k as int).push(line@));
        }
        assert(workspace_lines(ws@).take(ws.projects.len() + 1) =~= workspace_lines(ws@));
        assert(rep.workspaces.take(w + 1).drop_last() =~= rep.workspaces.take(w as int));
        w = w + 1;
        assert(out.deep_view() =~= seq!["Root: "@ + rep.root] + workspaces_lines(rep.workspaces.take(w as int)));
    }
    assert(rep.workspaces.take(report.workspaces.len() as int) =~= rep.workspaces);
    let ghost base = out.deep_view();
    let mut k: usize = 0;
    while k < report.standalone_projects.len()
        invariant
            rep == report@,
            k <= report.standalone_projects.len(),
            out.deep_view() == base + Seq::new(k as nat, |i: int| standalone_line(rep.standalone_projects[i])),
        decreases report.standalone_projects.len() - k,
    {
        let ghost mid = out.deep_view();
        let line = project_line("Project: ", &report.standalone_projects[k], true);
        assert(line@ == standalone_line(rep.standalone_projects[k as int]));
        out.push(line);
        assert(out.deep_view() =~= mid.push(line@));
        k = k + 1;
        assert(out.deep_view() =~= base + Seq::new(k as nat, |i: int| standalone_line(rep.standalone_projects[i])));
    }
    out
}

/// Whether `yq --version` shows Mike Farah's `yq` version 4: the command succeeded and its
/// output names `mikefarah` and `version v4`.
pub fn yq_version_accepted(succeeded: bool, output: &str) -> (r: bool)
    ensures
        r == (succeeded && occurs_in(output@, "mikefarah"@) && occurs_in(output@, "version v4"@)),
{
    succeeded && contains_text(output, "mikefarah") && contains_text(output, "version v4")
}

/// The action of a run without a command: the one remembered in the local configuration
/// found, else a build.
pub fn remembered_action(loaded: &Option<(String, LocalConfig)>) -> (r: BuildAction)
    ensures
        r == match loaded {
            Some((_, local)) => match local.action {
                Some(a) => a,
                None => BuildAction::Build,
            },
            None => BuildAction::Build,
        },
{
    match loaded {
        Some((_, local)) => match local.action {
            Some(a) => a,
            None => BuildAction::Build,
        },
        None => BuildAction::Build,
    }
}

/// The global configuration and the backends a command uses.
#[derive(Clone, Debug)]
pub struct Context {
    pub global: GlobalConfig,
    pub discovery_backend: DiscoveryBackend,
    pub xml_backend: XmlBackend,
}

/// The backends: `rg` and `yq` as named on the command line, else as configured, else the
/// native implementations.
pub fn context(global: GlobalConfig, rg: Option<String>, yq: Option<String>) -> (r: Context)
    ensures
        r.global == global,
        match first_of(rg.deep_view(), global.rg_path.deep_view()) {
            Some(p) => r.discovery_backend matches DiscoveryBackend::Ripgrep(s) && s@ == p,
            None => r.discovery_backend is Native,
        },
        match first_of(yq.deep_view(), global.yq_path.deep_view()) {
            Some(p) => r.xml_backend matches XmlBackend::Yq(s) && s@ == p,
            None => r.xml_backend is Native,
        },
{
    let discovery_backend = match first_present(&rg, &global.rg_path) {
        Some(p) => DiscoveryBackend::Ripgrep(p),
        None => DiscoveryBackend::Native,
    };
    let xml_backend = match first_present(&yq, &global.yq_path) {
        Some(p) => XmlBackend::Yq(p),
        None => XmlBackend::Native,
    };
    Context { global, discovery_backend, xml_backend }
}


/// No two workspaces of the report share a path, no two standalone projects share a file,
/// and no two projects of a workspace share a name.
pub open spec fn distinct_report(report: ReportModel) -> bool {
    &&& forall|i: int, j: int| 0 <= i < j < report.workspaces.len() ==> #[trigger] report.workspaces[i].path != #[trigger] report.workspaces[j].path
    &&& forall|i: int, j: int| 0 <= i < j < report.standalone_projects.len() ==> #[trigger] report.standalone_projects[i].path != #[trigger] report.standalone_projects[j].path
    &&& forall|w: int, i: int, j: int| 0 <= w < report.workspaces.len() && 0 <= i < j < report.workspaces[w].projects.len()
        ==> #[trigger] report.workspaces[w].projects[i].name != #[trigger] report.workspaces[w].projects[j].name
}

/// The remembered workspace or project file of a later run leads back to the target:
/// discovery finds it at the target's path.
pub open spec fn leads_back(report: ReportModel, sel: Selection, target: TargetModel) -> bool {
    match target {
        TargetModel::Workspace { path, .. } => sel.configured_workspace matches Some(x)
            && workspace_at(report, x@) matches Some(i) && report.workspaces[i].path == path,
        TargetModel::Project { path, .. } => sel.configured_project_file matches Some(x)
            && standalone_at(report, x@) matches Some(i) && report.standalone_projects[i].path == path,
    }
}

proof fn lemma_unique_first(len: int, pred: spec_fn(int) -> bool, i: int)
    requires
        0 <= i < len,
        pred(i),
        forall|j: int| 0 <= j < len && j != i ==> !#[trigger] pred(j),
    ensures
        first_where(len, pred) == Some(i),
{
    lemma_first_where_found(len, pred, i);
}

/// Configuring remembers a selection that the next plain run replays: when `configure`
/// (which makes the user choose) prepares a run, and a later run at the same root names
/// nothing and reads back the saved selection, that run acts on the same target and
/// remembers the same selection with its own action. The remembered files must lead back
/// to the target, and discovery must not list one file, or one project name of a
/// workspace, twice.
pub proof fn law_remembered_selection_replays(
    args: RunArgs,
    action: BuildAction,
    report: ReportModel,
    existing: LocalConfig,
    local_root: Seq<char>,
    executable: Seq<char>,
    sel: Selection,
    interactive: bool,
    answers: Seq<usize>,
    prepared: PreparedModel,
    saved: LocalConfig,
    later_args: RunArgs,
    later_action: BuildAction,
    later_executable: Seq<char>,
    later_sel: Selection,
    later_interactive: bool,
    later_answers: Seq<usize>,
)
    requires
        prepare_spec(args, action, report, existing, local_root, executable, sel, true, interactive, answers)
            == Ok::<StepModel, Seq<char>>(StepModel::Ready(prepared)),
        saved@ == prepared.local,
        later_args.workspace is None,
        later_args.project is None,
        later_args.project_file is None,
        later_args.build_config is None,
        !later_args.all,
        later_sel.explicit_workspace is None,
        later_sel.explicit_project_file is None,
        later_sel.configured_workspace is Some <==> saved.workspace is Some,
        later_sel.configured_project_file is Some <==> saved.project_file is Some,
        leads_back(report, later_sel, prepared.invocation.target),
        distinct_report(report),
    ensures
        prepare_spec(later_args, later_action, report, saved, local_root, later_executable, later_sel, false, later_interactive, later_answers)
            matches Ok(StepModel::Ready(p)) && p.invocation.target == prepared.invocation.target
            && p.local == (LocalModel { action: Some(later_action), ..prepared.local }),
{
    if targets_standalone(sel, report) {
        let selected = first_of(sel.explicit_project_file.deep_view(), sel.configured_project_file.deep_view());
        let i = standalone_choice(report, selected, true, interactive, answer_at(answers, 0))->Ok_0->Chosen_0;
        let x = later_sel.configured_project_file->0;
        let k = standalone_at(report, x@)->0;
        assert(k == i as int) by {
            if k != i as int {
                if k < i as int {
                    assert(report.standalone_projects[k].path != report.standalone_projects[i as int].path);
                } else {
                    assert(report.standalone_projects[i as int].path != report.standalone_projects[k].path);
                }
            }
        }
        assert(targets_standalone(later_sel, report));
    } else {
        let selected = first_of(sel.explicit_workspace.deep_view(), sel.configured_workspace.deep_view());
        let w = workspace_choice(report, selected, true, interactive, answer_at(answers, 0))->Ok_0->Chosen_0;
        let ws = report.workspaces[w as int];
        let x = later_sel.configured_workspace->0;
        let k = workspace_at(report, x@)->0;
        assert(k == w as int) by {
            if k != w as int {
                if k < w as int {
                    assert(report.workspaces[k].path != report.workspaces[w as int].path);
                } else {
                    assert(report.workspaces[w as int].path != report.workspaces[k].path);
                }
            }
        }
        assert(!targets_standalone(later_sel, report));
        if !builds_all(args, existing, true) {
            let c1 = if selected is None && takes_answer(report.workspaces.len() as int, true, interactive, answer_at(answers, 0)) { 1int } else { 0int };
            let named_project = first_of(args.project.deep_view(), existing.project.deep_view());
            let p = project_choice(ws, named_project, true, interactive, answer_at(answers, c1))->Ok_0->Chosen_0;
            let project = ws.projects[p as int];
            lemma_unique_first(ws.projects.len() as int, |j: int| ws.projects[j].name == project.name, p as int);
        }
    }
}


/// The build configuration a prepared run uses and remembers.
pub open spec fn target_build_config(target: TargetModel) -> Option<Seq<char>> {
    match target {
        TargetModel::Workspace { build_config, .. } => build_config,
        TargetModel::Project { build_config, .. } => Some(build_config),
    }
}

/// A BuildSet named on the command line takes precedence over the remembered one: unless
/// `--all` builds every project, the prepared run uses the named BuildSet and remembers
/// it, whatever BuildSet the local configuration holds.
pub proof fn law_named_build_set_wins(
    args: RunArgs,
    action: BuildAction,
    report: ReportModel,
    existing: LocalConfig,
    local_root: Seq<char>,
    executable: Seq<char>,
    sel: Selection,
    force: bool,
    interactive: bool,
    answers: Seq<usize>,
    prepared: PreparedModel,
    named: Seq<char>,
)
    requires
        args.build_config.deep_view() == Some(named),
        prepare_spec(args, action, report, existing, local_root, executable, sel, force, interactive, answers)
            == Ok::<StepModel, Seq<char>>(StepModel::Ready(prepared)),
    ensures
        prepared.local.all ==> args.all,
        !prepared.local.all ==> target_build_config(prepared.invocation.target) == Some(named),
        !prepared.local.all ==> prepared.local.build_config == Some(named),
{
    assert(first_of(args.build_config.deep_view(), existing.build_config.deep_view()) == Some(named));
}


proof fn lemma_prompts_differ()
    ensures
        workspace_prompt() != project_prompt(),
        workspace_prompt() != build_set_prompt(),
        project_prompt() != build_set_prompt(),
{
    reveal_strlit("请选择 CDK Workspace");
    reveal_strlit("请选择 CDK 项目");
    reveal_strlit("请选择 BuildSet");
    assert(workspace_prompt().len() == 17);
    assert(project_prompt().len() == 10);
    assert(build_set_prompt().len() == 12);
}

/// The answer to the question for a standalone project picks the project whose label was
/// shown at that place: the label is that project's file relative to the discovery root.
pub proof fn law_standalone_answer_picks_labelled_project(
    args: RunArgs,
    action: BuildAction,
    report: ReportModel,
    existing: LocalConfig,
    local_root: Seq<char>,
    executable: Seq<char>,
    sel: Selection,
    force: bool,
    interactive: bool,
    labels: Seq<Seq<char>>,
    answers: Seq<usize>,
    prepared: PreparedModel,
)
    requires
        targets_standalone(sel, report),
        prepare_spec(args, action, report, existing, local_root, executable, sel, force, interactive, Seq::empty())
            == Ok::<StepModel, Seq<char>>(StepModel::Ask(project_prompt(), labels)),
        answers.len() > 0,
        prepare_spec(args, action, report, existing, local_root, executable, sel, force, interactive, answers)
            == Ok::<StepModel, Seq<char>>(StepModel::Ready(prepared)),
    ensures
        labels.len() == report.standalone_projects.len(),
        answers[0] < labels.len(),
        prepared.invocation.target matches TargetModel::Project { path, .. } && path
            == report.standalone_projects[answers[0] as int].path,
        labels[answers[0] as int] == relative_spec(report.root, report.standalone_projects[answers[0] as int].path),
{
    lemma_prompts_differ();
}

/// The answer to the question for a workspace picks the workspace whose label was shown at
/// that place: the label is that workspace's file relative to the discovery root.
pub proof fn law_workspace_answer_picks_labelled_workspace(
    args: RunArgs,
    action: BuildAction,
    report: ReportModel,
    existing: LocalConfig,
    local_root: Seq<char>,
    executable: Seq<char>,
    sel: Selection,
    force: bool,
    interactive: bool,
    labels: Seq<Seq<char>>,
    answers: Seq<usize>,
    prepared: PreparedModel,
)
    requires
        !targets_standalone(sel, report),
        prepare_spec(args, action, report, existing, local_root, executable, sel, force, interactive, Seq::empty())
            == Ok::<StepModel, Seq<char>>(StepModel::Ask(workspace_prompt(), labels)),
        answers.len() > 0,
        prepare_spec(args, action, report, existing, local_root, executable, sel, force, interactive, answers)
            == Ok::<StepModel, Seq<char>>(StepModel::Ready(prepared)),
    ensures
        labels.len() == report.workspaces.len(),
        answers[0] < labels.len(),
        prepared.invocation.target matches TargetModel::Workspace { path, .. } && path
            == report.workspaces[answers[0] as int].path,
        labels[answers[0] as int] == relative_spec(report.root, report.workspaces[answers[0] as int].path),
{
    lemma_prompts_differ();
}

/// When the workspace is settled without a question, the answer to the question for a
/// project picks the project whose name was shown at that place.
pub proof fn law_project_answer_picks_labelled_project(
    args: RunArgs,
    action: BuildAction,
    report: ReportModel,
    existing: LocalConfig,
    local_root: Seq<char>,
    executable: Seq<char>,
    sel: Selection,
    force: bool,
    interactive: bool,
    labels: Seq<Seq<char>>,
    answers: Seq<usize>,
    prepared: PreparedModel,
)
    requires
        !targets_standalone(sel, report),
        prepare_spec(args, action, report, existing, local_root, executable, sel, force, interactive, Seq::empty())
            == Ok::<StepModel, Seq<char>>(StepModel::Ask(project_prompt(), labels)),
        answers.len() > 0,
        prepare_spec(args, action, report, existing, local_root, executable, sel, force, interactive, answers)
            == Ok::<StepModel, Seq<char>>(StepModel::Ready(prepared)),
    ensures
        answers[0] < labels.len(),
        prepared.invocation.target matches TargetModel::Workspace { project: Some(name), .. } && name
            == labels[answers[0] as int],
{
    lemma_prompts_differ();
}


/// How many lines the first `w` workspaces take in the text report: each its own line and
/// one per project.
pub open spec fn lines_of_workspaces(ws: Seq<WorkspaceModelInfo>, w: int) -> int
    decreases w,
{
    if w <= 0 {
        0
    } else {
        lines_of_workspaces(ws, w - 1) + 1 + ws[w - 1].projects.len()
    }
}

/// The line that names a workspace in the text report.
pub open spec fn workspace_header(w: WorkspaceModelInfo) -> Seq<char> {
    "Workspace: "@ + w.name + " ("@ + w.path + ")"@
}

proof fn lemma_lines_of_workspaces_grow(ws: Seq<WorkspaceModelInfo>, w: int, v: int)
    requires
        0 <= w <= v,
    ensures
        0 <= lines_of_workspaces(ws, w) <= lines_of_workspaces(ws, v),
        w < v ==> lines_of_workspaces(ws, w) + 1 + ws[w].projects.len() <= lines_of_workspaces(ws, v),
    decreases v,
{
    if w < v {
        lemma_lines_of_workspaces_grow(ws, w, v - 1);
    } else if w > 0 {
        lemma_lines_of_workspaces_grow(ws, w - 1, v - 1);
    }
}

proof fn lemma_lines_of_prefix(ws: Seq<WorkspaceModelInfo>, w: int)
    requires
        0 <= w < ws.len(),
    ensures
        lines_of_workspaces(ws.drop_last(), w) == lines_of_workspaces(ws, w),
    decreases w,
{
    if w > 0 {
        lemma_lines_of_prefix(ws, w - 1);
    }
}

proof fn lemma_workspace_lines(w: WorkspaceModelInfo)
    ensures
        workspace_lines(w).len() == 1 + w.projects.len(),
        workspace_lines(w)[0] == workspace_header(w),
        forall|p: int| 0 <= p < w.projects.len() ==> workspace_lines(w)[1 + p] == member_line(#[trigger] w.projects[p]),
{
    let tail = Seq::new(w.projects.len(), |i: int| member_line(w.projects[i]));
    assert(workspace_lines(w) == seq![workspace_header(w)] + tail);
    assert forall|p: int| 0 <= p < w.projects.len() implies workspace_lines(w)[1 + p] == member_line(
        #[trigger] w.projects[p],
    ) by {
        assert(tail[p] == member_line(w.projects[p]));
    }
}

proof fn lemma_workspaces_lines_len(ws: Seq<WorkspaceModelInfo>)
    ensures
        workspaces_lines(ws).len() == lines_of_workspaces(ws, ws.len() as int),
    decreases ws.len(),
{
    if ws.len() > 0 {
        lemma_workspaces_lines_len(ws.drop_last());
        lemma_lines_of_prefix(ws, ws.len() - 1);
        lemma_workspace_lines(ws.last());
    }
}

/// The line at `lines_of_workspaces(ws, w) + j` is line `j` of workspace `w`.
proof fn lemma_workspaces_lines_at(ws: Seq<WorkspaceModelInfo>, w: int, j: int)
    requires
        0 <= w < ws.len(),
        0 <= j <= ws[w].projects.len(),
    ensures
        workspaces_lines(ws)[lines_of_workspaces(ws, w) + j] == workspace_lines(ws[w])[j],
    decreases ws.len(),
{
    let t = ws.drop_last();
    let n = ws.len() - 1;
    lemma_workspaces_lines_len(t);
    lemma_lines_of_prefix(ws, n);
    let prefix = workspaces_lines(t);
    let all = workspaces_lines(ws);
    assert(all == prefix + workspace_lines(ws[n]));
    if w < n {
        lemma_workspaces_lines_at(t, w, j);
        lemma_lines_of_prefix(ws, w);
        lemma_lines_of_workspaces_grow(t, w, n);
        let k = lines_of_workspaces(ws, w) + j;
        assert(k == lines_of_workspaces(t, w) + j);
        assert(0 <= k < prefix.len());
        assert(t[w] == ws[w]);
        assert(all[k] == prefix[k]);
    } else {
        lemma_workspace_lines(ws[n]);
        lemma_lines_of_workspaces_grow(ws, 0, n);
    }
}

/// The text report lists every project of every workspace: after the root line, each
/// workspace's line is followed directly by one line for each of its projects, then the
/// standalone projects follow, one line each, and nothing else.
pub proof fn law_report_lists_every_project(report: ReportModel)
    ensures
        report_text(report).len() == 1 + lines_of_workspaces(report.workspaces, report.workspaces.len() as int)
            + report.standalone_projects.len(),
        report_text(report)[0] == "Root: "@ + report.root,
        forall|w: int|
            0 <= w < report.workspaces.len() ==> report_text(report)[1 + lines_of_workspaces(report.workspaces, w)]
                == workspace_header(#[trigger] report.workspaces[w]),
        forall|w: int, p: int|
            0 <= w < report.workspaces.len() && 0 <= p < report.workspaces[w].projects.len() ==> report_text(report)[2
                + lines_of_workspaces(report.workspaces, w) + p] == member_line(
                #[trigger] report.workspaces[w].projects[p],
            ),
        forall|i: int|
            0 <= i < report.standalone_projects.len() ==> report_text(report)[1 + lines_of_workspaces(
                report.workspaces,
                report.workspaces.len() as int,
            ) + i] == standalone_line(#[trigger] report.standalone_projects[i]),
{
    let ws = report.workspaces;
    lemma_workspaces_lines_len(ws);
    lemma_lines_of_workspaces_grow(ws, 0, ws.len() as int);
    let text = report_text(report);
    let total = lines_of_workspaces(ws, ws.len() as int);
    assert forall|w: int| 0 <= w < ws.len() implies text[1 + lines_of_workspaces(ws, w)] == workspace_header(
        #[trigger] ws[w],
    ) by {
        lemma_lines_of_workspaces_grow(ws, w, ws.len() as int);
        lemma_workspaces_lines_at(ws, w, 0);
        lemma_workspace_lines(ws[w]);
    }
    assert forall|w: int, p: int|
        0 <= w < ws.len() && 0 <= p < ws[w].projects.len() implies text[2 + lines_of_workspaces(ws, w) + p]
            == member_line(#[trigger] ws[w].projects[p]) by {
        lemma_lines_of_workspaces_grow(ws, w, ws.len() as int);
        lemma_workspaces_lines_at(ws, w, 1 + p);
        lemma_workspace_lines(ws[w]);
    }
    assert forall|i: int| 0 <= i < report.standalone_projects.len() implies text[1 + total + i] == standalone_line(
        #[trigger] report.standalone_projects[i],
    ) by {
    }
}

} // verus!
