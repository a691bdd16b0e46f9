use cdk_make_assistant::cli::{
    choose_build_config, choose_one, remembered_action, choose_project, choose_standalone, choose_workspace, context, prepare, relative,
    report_lines, resolve_relative, selection_base, selection_paths, yq_version_accepted, Choice, ConfigChoice,
    PrepareStep, RunArgs, Selection,
};
use cdk_make_assistant::config::{
    cdk_make_candidate, confirm_cdk_make, find_local_begin, find_local_step, local_config_path, schema_version,
    set_key, ConfigKey, GlobalConfig, LocalConfig, LocalSearch, DEFAULT_CDK_MAKE, LOCAL_CONFIG_NAME,
};
use cdk_make_assistant::counter::{Counter, Message};
use cdk_make_assistant::discovery::{
    discovery_next, include_entry, is_extension, phase_extension, ripgrep_files, ripgrep_succeeded, dedup_paths, sorted_paths, sorted_unique_paths, DiscoveryAction, DiscoveryBackend, DiscoveryEvent,
    DiscoveryPhase, DiscoveryState,
};
use cdk_make_assistant::error::AppError;
use cdk_make_assistant::model::{BuildAction, DiscoveryReport, ProjectInfo, WorkspaceInfo};
use cdk_make_assistant::parser::XmlBackend;
use cdk_make_assistant::runner::BuildTarget;

fn s(t: &str) -> String {
    t.to_string()
}

fn project(name: &str, path: &str, configs: &[&str], default: Option<&str>) -> ProjectInfo {
    ProjectInfo {
        name: s(name),
        path: s(path),
        language: None,
        project_type: None,
        build_configs: configs.iter().map(|c| s(c)).collect(),
        default_build_config: default.map(s),
    }
}

fn sample_report() -> DiscoveryReport {
    DiscoveryReport {
        root: s("/r"),
        workspaces: vec![WorkspaceInfo {
            name: s("sample"),
            path: s("/r/sample.cdkws"),
            active_project: Some(s("app")),
            projects: vec![
                project("lib", "/r/lib/lib.cdkproj", &["Debug", "Release"], None),
                project("app", "/r/app/app.cdkproj", &["Debug", "Release"], Some("Release")),
            ],
        }],
        standalone_projects: Vec::new(),
    }
}

fn no_selection() -> Selection {
    Selection { explicit_workspace: None, configured_workspace: None, explicit_project_file: None, configured_project_file: None }
}

fn message_of<T: std::fmt::Debug>(r: Result<T, AppError>) -> String {
    match r {
        Err(AppError::Message(m)) => m,
        other => panic!("unexpected {:?}", other),
    }
}

#[test]
fn increments_and_resets_the_counter() {
    let mut counter = Counter::new();

    counter.handle_message(Message::Increment);
    counter.handle_message(Message::Increment);
    assert_eq!(counter.count, 2);

    counter.handle_message(Message::Reset);
    assert_eq!(counter.count, 0);
}

#[test]
fn counter_stops_at_the_maximum() {
    let mut counter = Counter { count: u32::MAX };
    counter.handle_message(Message::Increment);
    assert_eq!(counter.count, u32::MAX);
}

#[test]
fn local_config_lives_at_the_project_root() {
    assert_eq!(LOCAL_CONFIG_NAME, ".cdk-make-assistant.toml");
    assert_eq!(local_config_path(&s("/tmp/project")), "/tmp/project/.cdk-make-assistant.toml");
    assert_eq!(schema_version(), 1);
    let g = GlobalConfig::default();
    assert_eq!(g.schema_version, 1);
    assert!(g.cdk_make_path.is_none() && g.rg_path.is_none() && g.yq_path.is_none());
    let l = LocalConfig::default();
    assert_eq!(l.schema_version, 1);
    assert!(!l.all && l.action.is_none() && l.workspace.is_none());
}

#[test]
fn finds_local_config_at_nearest_ancestor() {
    // Starting at /p/src/module with the configuration at /p.
    let mut step = find_local_begin(&s("/p/src/module"), false);
    let mut probed = Vec::new();
    let found = loop {
        match step {
            LocalSearch::Probe { dir, candidate } => {
                probed.push(candidate.clone());
                let exists = candidate == "/p/.cdk-make-assistant.toml";
                step = find_local_step(dir, candidate, exists);
            },
            LocalSearch::Found { root, path } => break Some((root, path)),
            LocalSearch::NotFound => break None,
        }
    };
    assert_eq!(found, Some((s("/p"), s("/p/.cdk-make-assistant.toml"))));
    assert_eq!(probed, ["/p/src/module/.cdk-make-assistant.toml", "/p/src/.cdk-make-assistant.toml", "/p/.cdk-make-assistant.toml"]);
}

#[test]
fn local_search_from_a_file_starts_at_its_directory_and_ends_at_the_top() {
    match find_local_begin(&s("/p/a.cdkproj"), true) {
        LocalSearch::Probe { dir, candidate } => {
            assert_eq!(dir, "/p");
            assert_eq!(candidate, "/p/.cdk-make-assistant.toml");
        },
        other => panic!("unexpected {:?}", other),
    }
    assert!(matches!(find_local_step(s("/"), s("/.cdk-make-assistant.toml"), false), LocalSearch::NotFound));
    assert!(matches!(find_local_begin(&s("/"), true), LocalSearch::NotFound));
}

#[test]
fn cdk_make_precedence() {
    let mut g = GlobalConfig::default();
    g.cdk_make_path = Some(s("/g/cdk-make.exe"));
    assert_eq!(cdk_make_candidate(Some(s("/x")), Some(s("/e")), &g, true).unwrap(), "/x");
    assert_eq!(cdk_make_candidate(None, Some(s("/e")), &g, true).unwrap(), "/e");
    assert_eq!(cdk_make_candidate(None, None, &g, true).unwrap(), "/g/cdk-make.exe");
    let empty = GlobalConfig::default();
    assert_eq!(cdk_make_candidate(None, None, &empty, true).unwrap(), DEFAULT_CDK_MAKE);
    assert_eq!(
        message_of(cdk_make_candidate(None, None, &empty, false)),
        "未配置 cdk-make.exe；请运行 `cdk-make-assistant config set cdk-make <PATH>`"
    );
    assert_eq!(confirm_cdk_make(s("/x"), true).unwrap(), "/x");
    assert_eq!(message_of(confirm_cdk_make(s("/x"), false)), "cdk-make.exe 不存在: /x");
}

#[test]
fn set_key_changes_only_its_key() {
    let mut g = GlobalConfig::default();
    set_key(&mut g, ConfigKey::Rg, Some(s("/bin/rg")));
    set_key(&mut g, ConfigKey::Yq, Some(s("/bin/yq")));
    set_key(&mut g, ConfigKey::CdkMake, Some(s("/bin/cdk")));
    set_key(&mut g, ConfigKey::Yq, None);
    assert_eq!(g.rg_path.as_deref(), Some("/bin/rg"));
    assert_eq!(g.yq_path, None);
    assert_eq!(g.cdk_make_path.as_deref(), Some("/bin/cdk"));
}

#[test]
fn immediate_workspace_takes_precedence_in_the_discovery_order() {
    let (state, action) = discovery_next(DiscoveryState::Start, DiscoveryEvent::Begin);
    assert!(matches!(action, DiscoveryAction::ListRoot(DiscoveryPhase::Workspaces)));
    let (state, action) = discovery_next(state, DiscoveryEvent::Found(vec![s("/r/root.cdkws")]));
    match action {
        DiscoveryAction::Read(DiscoveryPhase::Workspaces, files) => assert_eq!(files, ["/r/root.cdkws"]),
        other => panic!("unexpected {:?}", other),
    }
    let (_, action) = discovery_next(state, DiscoveryEvent::Read(1));
    assert!(matches!(action, DiscoveryAction::Finish));
}

#[test]
fn projects_are_searched_only_without_workspaces() {
    let (state, _) = discovery_next(DiscoveryState::Start, DiscoveryEvent::Begin);
    let (state, action) = discovery_next(state, DiscoveryEvent::Found(Vec::new()));
    assert!(matches!(action, DiscoveryAction::SearchTree(DiscoveryPhase::Workspaces)));
    let (state, _) = discovery_next(state, DiscoveryEvent::Found(Vec::new()));
    let (state, action) = discovery_next(state, DiscoveryEvent::Read(0));
    assert!(matches!(action, DiscoveryAction::ListRoot(DiscoveryPhase::Projects)));
    let (state, action) = discovery_next(state, DiscoveryEvent::Found(vec![s("/r/a.cdkproj")]));
    assert!(matches!(action, DiscoveryAction::Read(DiscoveryPhase::Projects, _)));
    let (state, action) = discovery_next(state, DiscoveryEvent::Read(1));
    assert!(matches!(action, DiscoveryAction::Finish));
    assert_eq!(state, DiscoveryState::Done);
    assert_eq!(phase_extension(DiscoveryPhase::Workspaces), "cdkws");
    assert_eq!(phase_extension(DiscoveryPhase::Projects), "cdkproj");
}

#[test]
fn extensions_and_skipped_directories() {
    assert!(is_extension(&s("/r/a.CDKWS"), true, "cdkws"));
    assert!(!is_extension(&s("/r/a.cdkws"), false, "cdkws"));
    assert!(!is_extension(&s("/r/a.cdkproj"), true, "cdkws"));
    assert!(!is_extension(&s("/r/cdkws"), true, "cdkws"));
    assert!(include_entry(0, "target"));
    assert!(!include_entry(1, "target"));
    assert!(!include_entry(2, ".git"));
    assert!(!include_entry(1, "node_modules"));
    assert!(!include_entry(1, "dist"));
    assert!(!include_entry(1, "out"));
    assert!(include_entry(1, "src"));
}

#[test]
fn paths_relative_to_the_root() {
    assert_eq!(relative(&s("/r"), &s("/r/app/app.cdkproj")), "app/app.cdkproj");
    assert_eq!(relative(&s("/r"), &s("/other/x")), "/other/x");
    assert_eq!(resolve_relative(&s("/r"), &s("app.cdkproj")), "/r/app.cdkproj");
    assert_eq!(resolve_relative(&s("/r"), &s("/abs/app.cdkproj")), "/abs/app.cdkproj");
}

#[test]
fn choosing_among_candidates() {
    let mut cursor = 0;
    assert_eq!(message_of(choose_one(0, "请选择 BuildSet", false, true, &Vec::new(), &mut cursor)), "请选择 BuildSet: 没有可用项");
    assert_eq!(choose_one(1, "p", false, false, &Vec::new(), &mut cursor).unwrap(), Choice::Chosen(0));
    assert_eq!(message_of(choose_one(2, "p", false, false, &Vec::new(), &mut cursor)), "p: 存在多个候选项，非交互模式下必须显式指定");
    assert_eq!(choose_one(2, "p", false, true, &Vec::new(), &mut cursor).unwrap(), Choice::Ask);
    assert_eq!(choose_one(1, "p", true, true, &vec![0], &mut cursor).unwrap(), Choice::Chosen(0));
    assert_eq!(cursor, 1);
    assert_eq!(message_of(choose_one(2, "p", false, true, &vec![0, 5], &mut cursor)), "p: 所选序号超出候选范围");
}

#[test]
fn choosing_projects_and_build_configurations() {
    let report = sample_report();
    let ws = &report.workspaces[0];
    let mut cursor = 0;
    assert_eq!(choose_project(ws, None, false, false, &Vec::new(), &mut cursor).unwrap(), Choice::Chosen(1));
    assert_eq!(choose_project(ws, Some(&s("lib")), false, false, &Vec::new(), &mut cursor).unwrap(), Choice::Chosen(0));
    assert_eq!(message_of(choose_project(ws, Some(&s("x")), false, false, &Vec::new(), &mut cursor)), "workspace 中不存在项目: x");
    assert_eq!(choose_project(ws, None, true, true, &Vec::new(), &mut cursor).unwrap(), Choice::Ask);

    let app = &ws.projects[1];
    assert!(matches!(choose_build_config(app, None, false, false, &Vec::new(), &mut cursor).unwrap(), ConfigChoice::Named(c) if c == "Release"));
    assert!(matches!(choose_build_config(app, Some(&s("Debug")), false, false, &Vec::new(), &mut cursor).unwrap(), ConfigChoice::Named(c) if c == "Debug"));
    assert_eq!(message_of(choose_build_config(app, Some(&s("Nope")), false, false, &Vec::new(), &mut cursor)), "项目 app 中不存在 BuildSet: Nope");
    assert!(matches!(choose_build_config(app, None, true, true, &vec![0], &mut cursor).unwrap(), ConfigChoice::Named(c) if c == "Debug"));

    assert_eq!(choose_workspace(&report, Some(s("/r/sample.cdkws")), false, false, &Vec::new(), &mut cursor).unwrap(), Choice::Chosen(0));
    assert_eq!(message_of(choose_workspace(&report, Some(s("/r/x.cdkws")), false, false, &Vec::new(), &mut cursor)), "配置的 workspace 不在发现结果中: /r/x.cdkws");
    assert_eq!(message_of(choose_standalone(&report, None, false, false, &Vec::new(), &mut cursor)), "请选择 CDK 项目: 没有可用项");
    assert_eq!(message_of(choose_standalone(&report, Some(s("/r/a.cdkproj")), false, false, &Vec::new(), &mut cursor)), "配置的项目不在发现结果中: /r/a.cdkproj");
}

#[test]
fn build_uses_active_project_and_default_build_config() {
    let report = sample_report();
    let args = RunArgs::default();
    let existing = LocalConfig::default();
    let step = prepare(&args, BuildAction::Build, &report, &existing, &s("/r"), &s("/bin/cdk-make.exe"), &no_selection(), false, false, &Vec::new()).unwrap();
    match step {
        PrepareStep::Ready(p) => {
            assert_eq!(p.invocation.args().unwrap(), ["-w", "/r/sample.cdkws", "-p", "app", "-c", "Release", "-d", "build"]);
            assert_eq!(p.local.workspace.as_deref(), Some("sample.cdkws"));
            assert_eq!(p.local.project.as_deref(), Some("app"));
            assert_eq!(p.local.build_config.as_deref(), Some("Release"));
            assert_eq!(p.local.action, Some(BuildAction::Build));
            assert_eq!(p.local_root, "/r");
        },
        other => panic!("unexpected {:?}", other),
    }
}

#[test]
fn configure_asks_each_question_in_turn() {
    let report = sample_report();
    let args = RunArgs::default();
    let existing = LocalConfig::default();
    let run = |answers: Vec<usize>| prepare(&args, BuildAction::Rebuild, &report, &existing, &s("/r"), &s("cdk"), &no_selection(), true, true, &answers).unwrap();
    match run(Vec::new()) {
        PrepareStep::Ask(q) => {
            assert_eq!(q.prompt, "请选择 CDK Workspace");
            assert_eq!(q.labels, ["sample.cdkws"]);
        },
        other => panic!("unexpected {:?}", other),
    }
    match run(vec![0]) {
        PrepareStep::Ask(q) => {
            assert_eq!(q.prompt, "请选择 CDK 项目");
            assert_eq!(q.labels, ["lib", "app"]);
        },
        other => panic!("unexpected {:?}", other),
    }
    match run(vec![0, 0]) {
        PrepareStep::Ask(q) => {
            assert_eq!(q.prompt, "请选择 BuildSet");
            assert_eq!(q.labels, ["Debug", "Release"]);
        },
        other => panic!("unexpected {:?}", other),
    }
    match run(vec![0, 0, 1]) {
        PrepareStep::Ready(p) => {
            assert!(matches!(&p.invocation.target, BuildTarget::Workspace { project: Some(n), build_config: Some(c), all: false, .. } if n == "lib" && c == "Release"));
            // The remembered selection replays without questions.
            let sel = selection_paths(&RunArgs::default(), &p.local, &p.local_root);
            assert_eq!(sel.configured_workspace.as_deref(), Some("/r/sample.cdkws"));
            let again = prepare(&RunArgs::default(), BuildAction::Build, &report, &p.local, &s("/r"), &s("cdk"), &sel, false, false, &Vec::new()).unwrap();
            match again {
                PrepareStep::Ready(q) => assert_eq!(q.invocation.args().unwrap(), ["-w", "/r/sample.cdkws", "-p", "lib", "-c", "Release", "-d", "build"]),
                other => panic!("unexpected {:?}", other),
            }
        },
        other => panic!("unexpected {:?}", other),
    }
}

#[test]
fn all_and_standalone_runs() {
    let report = sample_report();
    let mut args = RunArgs::default();
    args.all = true;
    match prepare(&args, BuildAction::Clean, &report, &LocalConfig::default(), &s("/r"), &s("cdk"), &no_selection(), false, false, &Vec::new()).unwrap() {
        PrepareStep::Ready(p) => {
            assert_eq!(p.invocation.args().unwrap(), ["-w", "/r/sample.cdkws", "-a", "-d", "clean"]);
            assert!(p.local.all);
        },
        other => panic!("unexpected {:?}", other),
    }
    let standalone = DiscoveryReport {
        root: s("/r"),
        workspaces: Vec::new(),
        standalone_projects: vec![project("one", "/r/one.cdkproj", &["Only"], Some("Only"))],
    };
    match prepare(&RunArgs::default(), BuildAction::Build, &standalone, &LocalConfig::default(), &s("/r"), &s("cdk"), &no_selection(), false, false, &Vec::new()).unwrap() {
        PrepareStep::Ready(p) => {
            assert_eq!(p.invocation.args().unwrap(), ["-p", "/r/one.cdkproj", "-c", "Only", "-d", "build"]);
            assert_eq!(p.local.project_file.as_deref(), Some("one.cdkproj"));
        },
        other => panic!("unexpected {:?}", other),
    }
    let empty = DiscoveryReport { root: s("/r"), workspaces: Vec::new(), standalone_projects: Vec::new() };
    assert_eq!(
        message_of(prepare(&RunArgs::default(), BuildAction::Build, &empty, &LocalConfig::default(), &s("/r"), &s("cdk"), &no_selection(), false, false, &Vec::new())),
        "请选择 CDK Workspace: 没有可用项"
    );
}

#[test]
fn base_and_selection_paths() {
    let (root, local) = selection_base(s("/start"), None);
    assert_eq!(root, "/start");
    assert!(local.project.is_none());
    let mut saved = LocalConfig::default();
    saved.workspace = Some(s("w.cdkws"));
    saved.project_file = Some(s("/abs/p.cdkproj"));
    let (root, local) = selection_base(s("/start"), Some((s("/cfg"), saved)));
    assert_eq!(root, "/cfg");
    let mut args = RunArgs::default();
    args.project_file = Some(s("x.cdkproj"));
    let sel = selection_paths(&args, &local, &root);
    assert_eq!(sel.explicit_workspace, None);
    assert_eq!(sel.configured_workspace.as_deref(), Some("/cfg/w.cdkws"));
    assert_eq!(sel.explicit_project_file.as_deref(), Some("/cfg/x.cdkproj"));
    assert_eq!(sel.configured_project_file.as_deref(), Some("/abs/p.cdkproj"));
}

#[test]
fn text_report_lists_workspaces_and_projects() {
    let mut report = sample_report();
    report.standalone_projects.push(project("one", "/r/one.cdkproj", &["A", "B"], None));
    assert_eq!(
        report_lines(&report),
        [
            "Root: /r",
            "Workspace: sample (/r/sample.cdkws)",
            "  Project: lib [Debug, Release]",
            "  Project: app [Debug, Release]",
            "Project: one (/r/one.cdkproj) [A, B]",
        ]
    );
}

#[test]
fn yq_must_be_mikefarah_v4() {
    assert!(yq_version_accepted(true, "yq (https://github.com/mikefarah/yq/) version v4.40.5"));
    assert!(!yq_version_accepted(false, "yq (https://github.com/mikefarah/yq/) version v4.40.5"));
    assert!(!yq_version_accepted(true, "yq 3.4.1"));
    assert!(!yq_version_accepted(true, "yq (https://github.com/mikefarah/yq/) version v3.4"));
}

#[test]
fn backends_follow_flags_then_configuration() {
    let mut g = GlobalConfig::default();
    g.rg_path = Some(s("/g/rg"));
    let c = context(g.clone(), None, Some(s("/x/yq")));
    assert!(matches!(c.discovery_backend, DiscoveryBackend::Ripgrep(ref p) if p == "/g/rg"));
    assert!(matches!(c.xml_backend, XmlBackend::Yq(ref p) if p == "/x/yq"));
    let c = context(GlobalConfig::default(), None, None);
    assert!(matches!(c.discovery_backend, DiscoveryBackend::Native));
    assert!(matches!(c.xml_backend, XmlBackend::Native));
    let c = context(g, Some(s("/x/rg")), None);
    assert!(matches!(c.discovery_backend, DiscoveryBackend::Ripgrep(ref p) if p == "/x/rg"));
}

#[test]
fn error_codes_and_texts() {
    let cases = vec![
        (AppError::Message(s("m")), "invalid_request", "m"),
        (AppError::Read { path: s("p"), source: s("e") }, "io_read", "无法读取 p: e"),
        (AppError::Parse { path: s("p"), message: s("e") }, "parse_error", "无法解析 p: e"),
        (AppError::Write { path: s("p"), source: s("e") }, "io_write", "无法写入 p: e"),
        (AppError::Tool { tool: s("yq"), message: s("e") }, "external_tool", "外部工具 yq 执行失败: e"),
    ];
    for (error, code, text) in cases {
        assert_eq!(error.code(), code);
        assert_eq!(error.describe(), text);
    }
}

#[test]
fn run_without_command_uses_remembered_action() {
    assert_eq!(remembered_action(&None), BuildAction::Build);
    let mut local = LocalConfig::default();
    assert_eq!(remembered_action(&Some((s("/r"), local.clone()))), BuildAction::Build);
    local.action = Some(BuildAction::Rebuild);
    assert_eq!(remembered_action(&Some((s("/r"), local))), BuildAction::Rebuild);
}

#[test]
fn ripgrep_listing_names_files_below_the_root() {
    assert_eq!(
        ripgrep_files(&s("/r"), "./a/x.cdkws\n\n  \t\n./b/y.cdkws\r\n./c z.cdkws"),
        ["/r/./a/x.cdkws", "/r/./b/y.cdkws", "/r/./c z.cdkws"]
    );
    assert_eq!(ripgrep_files(&s("/r"), ""), Vec::<String>::new());
    assert_eq!(ripgrep_files(&s("/r"), "a\r"), ["/r/a\r"]);
    assert_eq!(ripgrep_files(&s("/r"), "\u{3000}\n"), Vec::<String>::new());
}

#[test]
fn ripgrep_finding_nothing_is_no_failure() {
    assert!(ripgrep_succeeded(true, Some(0)));
    assert!(ripgrep_succeeded(false, Some(1)));
    assert!(!ripgrep_succeeded(false, Some(2)));
    assert!(!ripgrep_succeeded(false, None));
}

#[test]
fn relative_paths_resolve_back() {
    for p in ["/r/app/app.cdkproj", "/other/x.cdkws", "/r/w.cdkws"] {
        assert_eq!(resolve_relative(&s("/r"), &relative(&s("/r"), &s(p))), p);
    }
}

#[test]
fn default_run_arguments_name_no_root() {
    let args = RunArgs::default();
    assert_eq!(args.root, "");
    assert!(args.workspace.is_none() && args.project.is_none() && args.project_file.is_none());
    assert!(args.build_config.is_none() && !args.all && !args.verbose && !args.dry_run && args.extra.is_empty());
}

#[test]
fn found_files_come_in_the_order_of_paths() {
    let found = vec![s("/r/b/x.cdkproj"), s("/r/a.b/x.cdkproj"), s("/r/a/x.cdkproj"), s("/r/a/x.cdkproj")];
    assert_eq!(sorted_paths(found.clone()), ["/r/a/x.cdkproj", "/r/a/x.cdkproj", "/r/a.b/x.cdkproj", "/r/b/x.cdkproj"]);
    assert_eq!(sorted_unique_paths(found), ["/r/a/x.cdkproj", "/r/a.b/x.cdkproj", "/r/b/x.cdkproj"]);
    assert_eq!(sorted_unique_paths(Vec::new()), Vec::<String>::new());
}

#[test]
fn equal_paths_next_to_each_other_are_kept_once() {
    assert_eq!(dedup_paths(vec![s("/r/a"), s("/r//a"), s("/r/a/"), s("/r/b"), s("/r/a")]), ["/r/a", "/r/b", "/r/a"]);
}
