//! The tool's configuration: the global executable paths and the build selection that is
//! remembered at a project's root.

use vstd::prelude::*;

use crate::error::AppError;
use crate::model::BuildAction;
use crate::paths;

verus! {

/// The file, at a project's root, that remembers the build selection.
pub const LOCAL_CONFIG_NAME: &'static str = ".cdk-make-assistant.toml";

/// Where `cdk-make.exe` is looked for when nothing else names it.
pub const DEFAULT_CDK_MAKE: &'static str = "C:\\Program Files\\C-Sky\\CDK\\cdk-make.exe";

/// Paths of the external executables the tool may use.
#[derive(Clone, Debug)]
pub struct GlobalConfig {
    pub schema_version: u32,
    pub cdk_make_path: Option<String>,
    pub rg_path: Option<String>,
    pub yq_path: Option<String>,
}

/// The build selection remembered for a project root.
#[derive(Clone, Debug)]
pub struct LocalConfig {
    pub schema_version: u32,
    pub workspace: Option<String>,
    pub project_file: Option<String>,
    pub project: Option<String>,
    pub build_config: Option<String>,
    pub action: Option<BuildAction>,
    pub all: bool,
}

/// The model of a local configuration.
pub struct LocalModel {
    pub schema_version: u32,
    pub workspace: Option<Seq<char>>,
    pub project_file: Option<Seq<char>>,
    pub project: Option<Seq<char>>,
    pub build_config: Option<Seq<char>>,
    pub action: Option<BuildAction>,
    pub all: bool,
}

impl View for LocalConfig {
    type V = LocalModel;

    open spec fn view(&self) -> LocalModel {
        LocalModel {
            schema_version: self.schema_version,
            workspace: self.workspace.deep_view(),
            project_file: self.project_file.deep_view(),
            project: self.project.deep_view(),
            build_config: self.build_config.deep_view(),
            action: self.action,
            all: self.all,
        }
    }
}

/// The version of the configuration files' layout.
pub fn schema_version() -> (r: u32)
    ensures
        r == 1,
{
    1
}

impl Default for GlobalConfig {
    fn default() -> (r: Self)
        ensures
            r.schema_version == 1,
            r.cdk_make_path is None,
            r.rg_path is None,
            r.yq_path is None,
    {
        GlobalConfig { schema_version: schema_version(), cdk_make_path: None, rg_path: None, yq_path: None }
    }
}

impl Default for LocalConfig {
    fn default() -> (r: Self)
        ensures
            r.schema_version == 1,
            r.workspace is None,
            r.project_file is None,
            r.project is None,
            r.build_config is None,
            r.action is None,
            !r.all,
    {
        LocalConfig {
            schema_version: schema_version(),
            workspace: None,
            project_file: None,
            project: None,
            build_config: None,
            action: None,
            all: false,
        }
    }
}

/// The path of the local configuration file of a project root.
pub open spec fn local_config_file(root: Seq<char>) -> Seq<char> {
    paths::path_join(root, LOCAL_CONFIG_NAME@)
}

/// The local configuration file at the root `root`.
pub fn local_config_path(root: &String) -> (r: String)
    ensures
        r@ == local_config_file(root@),
{
    paths::join(root, LOCAL_CONFIG_NAME)
}

/// A step of the search for the nearest local configuration, from a starting path up
/// through its ancestors.
#[derive(Clone, Debug)]
pub enum LocalSearch {
    /// Look whether `candidate`, the configuration file of `dir`, is a file.
    Probe { dir: String, candidate: String },
    /// The configuration of the root `root` is the file `path`.
    Found { root: String, path: String },
    /// No ancestor has a configuration file.
    NotFound,
}

/// The search step that probes the directory `dir`.
pub open spec fn probe_of(dir: Seq<char>, step: LocalSearch) -> bool {
    step matches LocalSearch::Probe { dir: d, candidate: c } && d@ == dir && c@ == local_config_file(dir)
}

fn probe(dir: String) -> (r: LocalSearch)
    ensures
        probe_of(dir@, r),
{
    let candidate = local_config_path(&dir);
    LocalSearch::Probe { dir, candidate }
}

/// The first step of the search from `start`: its parent directory when `start` is a
/// file, `start` itself otherwise.
pub fn find_local_begin(start: &String, start_is_file: bool) -> (r: LocalSearch)
    ensures
        !start_is_file ==> probe_of(start@, r),
        start_is_file ==> match paths::path_parent(start@) {
            Some(dir) => probe_of(dir, r),
            None => r is NotFound,
        },
{
    if start_is_file {
        match paths::parent(start) {
            Some(dir) => probe(dir),
            None => LocalSearch::NotFound,
        }
    } else {
        probe(start.clone())
    }
}

/// The step after probing `dir`: found when its configuration file exists, otherwise the
/// probe of its parent, or the end of the search at the top.
pub fn find_local_step(dir: String, candidate: String, candidate_is_file: bool) -> (r: LocalSearch)
    ensures
        candidate_is_file ==> (r matches LocalSearch::Found { root, path } && root@ == dir@ && path@ == candidate@),
        !candidate_is_file ==> match paths::path_parent(dir@) {
            Some(up) => probe_of(up, r),
            None => r is NotFound,
        },
{
    if candidate_is_file {
        LocalSearch::Found { root: dir, path: candidate }
    } else {
        match paths::parent(&dir) {
            Some(up) => probe(up),
            None => LocalSearch::NotFound,
        }
    }
}

/// The text of the error when no `cdk-make.exe` is configured.
pub open spec fn unconfigured_text() -> Seq<char> {
    "未配置 cdk-make.exe；请运行 `cdk-make-assistant config set cdk-make <PATH>`"@
}

/// The text of the error when the configured `cdk-make.exe` is not a file.
pub open spec fn missing_executable_text(path: Seq<char>) -> Seq<char> {
    "cdk-make.exe 不存在: "@ + path
}

/// The `cdk-make.exe` to use, by precedence: the one named on the command line, the
/// `CDK_MAKE_PATH` environment variable (`from_env`), the global configuration, and the
/// default installation path when `default_exists` says it is a file.
pub open spec fn cdk_make_choice(
    explicit: Option<Seq<char>>,
    from_env: Option<Seq<char>>,
    configured: Option<Seq<char>>,
    default_exists: bool,
) -> Option<Seq<char>> {
    if explicit is Some {
        explicit
    } else if from_env is Some {
        from_env
    } else if configured is Some {
        configured
    } else if default_exists {
        Some(DEFAULT_CDK_MAKE@)
    } else {
        None
    }
}

fn or_text(first: Option<String>, second: &Option<String>) -> (r: Option<String>)
    ensures
        r.deep_view() == if first is Some { first.deep_view() } else { second.deep_view() },
{
    match first {
        Some(s) => Some(s),
        None => second.clone(),
    }
}

/// The candidate `cdk-make.exe` (see `cdk_make_choice`), or the error that none is configured.
pub fn cdk_make_candidate(
    explicit: Option<String>,
    from_env: Option<String>,
    global: &GlobalConfig,
    default_exists: bool,
) -> (r: Result<String, AppError>)
    ensures
        match cdk_make_choice(explicit.deep_view(), from_env.deep_view(), global.cdk_make_path.deep_view(), default_exists) {
            Some(p) => r matches Ok(s) && s@ == p,
            None => r matches Err(AppError::Message(m)) && m@ == unconfigured_text(),
        },
{
    let chosen = or_text(or_text(explicit, &from_env), &global.cdk_make_path);
    match chosen {
        Some(p) => Ok(p),
        None => if default_exists {
            Ok(String::from_str(DEFAULT_CDK_MAKE))
        } else {
            Err(AppError::Message(String::from_str("未配置 cdk-make.exe；请运行 `cdk-make-assistant config set cdk-make <PATH>`")))
        },
    }
}

/// The chosen `cdk-make.exe`, accepted only when `exists` says it is a file.
pub fn confirm_cdk_make(path: String, exists: bool) -> (r: Result<String, AppError>)
    ensures
        exists ==> (r matches Ok(s) && s@ == path@),
        !exists ==> (r matches Err(AppError::Message(m)) && m@ == missing_executable_text(path@)),
{
    if exists {
        Ok(path)
    } else {
        let mut m = String::from_str("cdk-make.exe 不存在: ");
        m.append(path.as_str());
        Err(AppError::Message(m))
    }
}

/// The keys of the global configuration that `config set` and `config unset` change.
#[derive(Clone, Copy, Debug, PartialEq, Eq, Structural)]
pub enum ConfigKey {
    CdkMake,
    Rg,
    Yq,
}

/// The path that the global configuration holds for a key.
pub open spec fn key_value(config: GlobalConfig, key: ConfigKey) -> Option<String> {
    match key {
        ConfigKey::CdkMake => config.cdk_make_path,
        ConfigKey::Rg => config.rg_path,
        ConfigKey::Yq => config.yq_path,
    }
}

/// Sets (or, with `None`, clears) the path of one key; the other keys keep theirs.
pub fn set_key(config: &mut GlobalConfig, key: ConfigKey, value: Option<String>)
    ensures
        key_value(*final(config), key) == value,
        forall|other: ConfigKey| other != key ==> key_value(*final(config), other) == key_value(*old(config), other),
        final(config).schema_version == old(config).schema_version,
{
    match key {
        ConfigKey::CdkMake => config.cdk_make_path = value,
        ConfigKey::Rg => config.rg_path = value,
        ConfigKey::Yq => config.yq_path = value,
    }
}

} // verus!
