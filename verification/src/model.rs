//! The data that discovery produces and that builds act on.

use vstd::prelude::*;

verus! {

/// What `cdk-make` is asked to do with the selected target.
#[derive(Clone, Copy, Debug, PartialEq, Eq, Structural)]
pub enum BuildAction {
    Build,
    Clean,
    Rebuild,
}

/// The word that names an action on the `cdk-make` command line.
pub open spec fn action_word(action: BuildAction) -> Seq<char> {
    match action {
        BuildAction::Build => "build"@,
        BuildAction::Clean => "clean"@,
        BuildAction::Rebuild => "rebuild"@,
    }
}

impl BuildAction {
    /// The command-line word of this action: `build`, `clean` or `rebuild`.
    pub fn as_str(&self) -> (r: &'static str)
        ensures
            r@ == action_word(*self),
    {
        match self {
            BuildAction::Build => "build",
            BuildAction::Clean => "clean",
            BuildAction::Rebuild => "rebuild",
        }
    }
}

/// One CDK project file (`.cdkproj`) as discovery reads it.
#[derive(Clone, Debug)]
pub struct ProjectInfo {
    pub name: String,
    pub path: String,
    pub language: Option<String>,
    pub project_type: Option<String>,
    pub build_configs: Vec<String>,
    pub default_build_config: Option<String>,
}

/// One CDK workspace file (`.cdkws`) with the projects it references.
#[derive(Clone, Debug)]
pub struct WorkspaceInfo {
    pub name: String,
    pub path: String,
    pub active_project: Option<String>,
    pub projects: Vec<ProjectInfo>,
}

/// Everything discovery found below one root directory.
#[derive(Clone, Debug)]
pub struct DiscoveryReport {
    pub root: String,
    pub workspaces: Vec<WorkspaceInfo>,
    pub standalone_projects: Vec<ProjectInfo>,
}


/// The model of a project: its name, file, language, type, build configurations and the
/// configuration a build uses when none is named.
pub struct ProjectModelInfo {
    pub name: Seq<char>,
    pub path: Seq<char>,
    pub language: Option<Seq<char>>,
    pub project_type: Option<Seq<char>>,
    pub build_configs: Seq<Seq<char>>,
    pub default_build_config: Option<Seq<char>>,
}

/// The model of a workspace.
pub struct WorkspaceModelInfo {
    pub name: Seq<char>,
    pub path: Seq<char>,
    pub active_project: Option<Seq<char>>,
    pub projects: Seq<ProjectModelInfo>,
}

impl View for ProjectInfo {
    type V = ProjectModelInfo;

    open spec fn view(&self) -> ProjectModelInfo {
        ProjectModelInfo {
            name: self.name@,
            path: self.path@,
            language: self.language.deep_view(),
            project_type: self.project_type.deep_view(),
            build_configs: self.build_configs.deep_view(),
            default_build_config: self.default_build_config.deep_view(),
        }
    }
}

impl View for WorkspaceInfo {
    type V = WorkspaceModelInfo;

    open spec fn view(&self) -> WorkspaceModelInfo {
        WorkspaceModelInfo {
            name: self.name@,
            path: self.path@,
            active_project: self.active_project.deep_view(),
            projects: self.projects@.map_values(|p: ProjectInfo| p@),
        }
    }
}


/// The model of a discovery report.
pub struct ReportModel {
    pub root: Seq<char>,
    pub workspaces: Seq<WorkspaceModelInfo>,
    pub standalone_projects: Seq<ProjectModelInfo>,
}

impl View for DiscoveryReport {
    type V = ReportModel;

    open spec fn view(&self) -> ReportModel {
        ReportModel {
            root: self.root@,
            workspaces: self.workspaces@.map_values(|w: WorkspaceInfo| w@),
            standalone_projects: self.standalone_projects@.map_values(|p: ProjectInfo| p@),
        }
    }
}

} // verus!
