use cdk_make_assistant::document::{parse_project_yq, parse_workspace_yq, MatrixConfiguration, ProjectDocument, WorkspaceDocument, WorkspaceEntry};
use cdk_make_assistant::error::AppError;
use cdk_make_assistant::json::{attr, attr_optional, parse_json, values, yq_output_json, Json};
use cdk_make_assistant::model::ProjectInfo;
use cdk_make_assistant::parser::{admit_project, check_project_file, parse_message, parse_project, parse_workspace};
use cdk_make_assistant::text::{contains_text, eq_ignore_ascii_case, is_yes, join_texts, str_eq};

fn s(t: &str) -> String {
    t.to_string()
}

fn obj(members: Vec<(&str, Json)>) -> Json {
    Json::Object(members.into_iter().map(|(k, v)| (k.to_string(), v)).collect())
}

fn text(t: &str) -> Json {
    Json::Str(t.to_string())
}

fn project_doc(name: &str, configs: &[&str]) -> ProjectDocument {
    ProjectDocument {
        name: s(name),
        language: Some(s("C")),
        project_type: Some(s("Application")),
        build_configs: configs.iter().map(|c| s(c)).collect(),
    }
}

#[test]
fn yes_in_any_case() {
    assert!(is_yes(Some("yes")));
    assert!(is_yes(Some("Yes")));
    assert!(is_yes(Some("YES")));
    assert!(!is_yes(Some("no")));
    assert!(!is_yes(Some("yes ")));
    assert!(!is_yes(None));
    assert!(eq_ignore_ascii_case("Ärger", "Ärger"));
    assert!(!eq_ignore_ascii_case("Ärger", "ärger"));
    assert!(str_eq("abc", "abc"));
    assert!(!str_eq("abc", "abd"));
}

#[test]
fn text_search_and_join() {
    assert!(contains_text("yq (https://github.com/mikefarah/yq/) version v4.44.1", "mikefarah"));
    assert!(!contains_text("abc", "abcd"));
    assert!(contains_text("abc", ""));
    assert_eq!(join_texts(&vec![s("Debug"), s("Release")], ", "), "Debug, Release");
    assert_eq!(join_texts(&Vec::new(), ", "), "");
}

#[test]
fn json_lookups_read_attributes() {
    let v = obj(vec![("+@Name", text("app")), ("+@Count", Json::Number(s("3")))]);
    assert_eq!(attr_optional(&v, "Name").map(|x| x.as_str()), Some("app"));
    assert_eq!(attr_optional(&v, "Count"), None);
    assert_eq!(attr_optional(&v, "Missing"), None);
    match attr(&v, "Missing", &s("p.cdkproj")) {
        Err(AppError::Parse { path, message }) => {
            assert_eq!(path, "p.cdkproj");
            assert_eq!(message, "缺少 XML 属性 Missing");
        },
        other => panic!("unexpected {:?}", other),
    }
    let list = Json::Array(vec![text("a"), text("b")]);
    assert_eq!(values(Some(&list)).len(), 2);
    assert_eq!(values(Some(&v)).len(), 1);
    assert_eq!(values(None).len(), 0);
    assert!(v.get("+@Name").is_some());
    assert!(text("x").get("+@Name").is_none());
}

#[test]
fn parses_project_from_yq_json() {
    let json = obj(vec![(
        "Project",
        obj(vec![
            ("+@Name", text("app")),
            ("+@Language", text("C")),
            ("BuildConfigs", obj(vec![("BuildConfig", Json::Array(vec![obj(vec![("+@Name", text("Debug"))]), obj(vec![("+@Name", text("Release"))])]))])),
        ]),
    )]);
    let doc = parse_project_yq(&s("app.cdkproj"), &json).unwrap();
    assert_eq!(doc.name, "app");
    assert_eq!(doc.language.as_deref(), Some("C"));
    assert_eq!(doc.project_type, None);
    assert_eq!(doc.build_configs, ["Debug", "Release"]);

    let single = obj(vec![("Project", obj(vec![("+@Name", text("lib")), ("BuildConfigs", obj(vec![("BuildConfig", obj(vec![("+@Name", text("Only"))]))]))]))]);
    assert_eq!(parse_project_yq(&s("lib.cdkproj"), &single).unwrap().build_configs, ["Only"]);
}

#[test]
fn project_json_errors() {
    match parse_project_yq(&s("x.cdkproj"), &obj(vec![])) {
        Err(AppError::Parse { message, .. }) => assert_eq!(message, "缺少 Project 根元素"),
        other => panic!("unexpected {:?}", other),
    }
    let nameless = obj(vec![("Project", obj(vec![("+@Language", text("C"))]))]);
    match parse_project_yq(&s("x.cdkproj"), &nameless) {
        Err(AppError::Parse { message, .. }) => assert_eq!(message, "缺少 XML 属性 Name"),
        other => panic!("unexpected {:?}", other),
    }
}

#[test]
fn parses_workspace_from_yq_json() {
    let json = obj(vec![(
        "CDK_Workspace",
        obj(vec![
            ("+@Name", text("sample")),
            ("Project", obj(vec![("+@Name", text("app")), ("+@Path", text("app/app.cdkproj")), ("+@Active", text("Yes"))])),
            (
                "BuildMatrix",
                obj(vec![(
                    "WorkspaceConfiguration",
                    obj(vec![("+@Selected", text("yes")), ("Project", obj(vec![("+@Name", text("app")), ("+@ConfigName", text("Release"))]))]),
                )]),
            ),
        ]),
    )]);
    let doc = parse_workspace_yq(&s("/w/sample.cdkws"), &json).unwrap();
    assert_eq!(doc.name, "sample");
    assert_eq!(doc.projects.len(), 1);
    assert_eq!(doc.projects[0].path, "app/app.cdkproj");
    assert_eq!(doc.projects[0].active.as_deref(), Some("Yes"));
    assert_eq!(doc.matrix.len(), 1);
    assert_eq!(doc.matrix[0].projects, [(s("app"), s("Release"))]);

    let no_path = obj(vec![("CDK_Workspace", obj(vec![("+@Name", text("w")), ("Project", obj(vec![("+@Name", text("app"))]))]))]);
    match parse_workspace_yq(&s("w.cdkws"), &no_path) {
        Err(AppError::Parse { message, .. }) => assert_eq!(message, "缺少 XML 属性 Path"),
        other => panic!("unexpected {:?}", other),
    }
    match parse_workspace_yq(&s("w.cdkws"), &obj(vec![("Project", obj(vec![]))])) {
        Err(AppError::Parse { message, .. }) => assert_eq!(message, "缺少 CDK_Workspace 根元素"),
        other => panic!("unexpected {:?}", other),
    }
    let bad_matrix = obj(vec![(
        "CDK_Workspace",
        obj(vec![("+@Name", text("w")), ("BuildMatrix", obj(vec![("WorkspaceConfiguration", obj(vec![("Project", obj(vec![("+@Name", text("app"))]))]))]))]),
    )]);
    match parse_workspace_yq(&s("w.cdkws"), &bad_matrix) {
        Err(AppError::Parse { message, .. }) => assert_eq!(message, "缺少 XML 属性 ConfigName"),
        other => panic!("unexpected {:?}", other),
    }
}

#[test]
fn parses_workspace_projects_and_build_matrix_defaults_from_documents() {
    let workspace = WorkspaceDocument {
        name: s("sample"),
        projects: vec![WorkspaceEntry { name: s("app"), path: s("app/app.cdkproj"), active: Some(s("Yes")) }],
        matrix: vec![MatrixConfiguration { selected: Some(s("yes")), projects: vec![(s("app"), s("Release"))] }],
    };
    let plan = parse_workspace(&s("/tmp/w/sample.cdkws"), workspace).unwrap();
    assert_eq!(plan.name, "sample");
    assert_eq!(plan.active_project.as_deref(), Some("app"));
    assert_eq!(plan.projects[0].path, "/tmp/w/app/app.cdkproj");
    assert_eq!(plan.projects[0].default_build_config.as_deref(), Some("Release"));

    let project = parse_project(project_doc("app", &["Debug", "Release"]), plan.projects[0].path.clone(), plan.projects[0].default_build_config.clone());
    let project = admit_project(&plan.path, &plan.projects[0], project).unwrap();
    let parsed = plan.finish(vec![project]);

    assert_eq!(parsed.name, "sample");
    assert_eq!(parsed.active_project.as_deref(), Some("app"));
    assert_eq!(parsed.projects[0].build_configs, ["Debug", "Release"]);
    assert_eq!(parsed.projects[0].default_build_config.as_deref(), Some("Release"));
}

#[test]
fn build_matrix_defaults_come_from_the_selected_configuration() {
    let doc = WorkspaceDocument {
        name: s("w"),
        projects: vec![
            WorkspaceEntry { name: s("a"), path: s("a.cdkproj"), active: None },
            WorkspaceEntry { name: s("b"), path: s("b.cdkproj"), active: Some(s("YES")) },
            WorkspaceEntry { name: s("c"), path: s("c.cdkproj"), active: Some(s("yes")) },
        ],
        matrix: vec![
            MatrixConfiguration { selected: Some(s("no")), projects: vec![(s("a"), s("First"))] },
            MatrixConfiguration { selected: Some(s("Yes")), projects: vec![(s("a"), s("Debug")), (s("a"), s("Release"))] },
            MatrixConfiguration { selected: Some(s("yes")), projects: vec![(s("b"), s("Never"))] },
        ],
    };
    let plan = parse_workspace(&s("/w/w.cdkws"), doc).unwrap();
    assert_eq!(plan.active_project.as_deref(), Some("b"));
    assert_eq!(plan.projects[0].default_build_config.as_deref(), Some("Release"));
    assert_eq!(plan.projects[1].default_build_config, None);

    let unselected = WorkspaceDocument {
        name: s("w"),
        projects: vec![WorkspaceEntry { name: s("a"), path: s("a.cdkproj"), active: None }],
        matrix: vec![
            MatrixConfiguration { selected: None, projects: vec![(s("a"), s("First"))] },
            MatrixConfiguration { selected: None, projects: vec![(s("a"), s("Second"))] },
        ],
    };
    let plan = parse_workspace(&s("/w/w.cdkws"), unselected).unwrap();
    assert_eq!(plan.active_project, None);
    assert_eq!(plan.projects[0].default_build_config.as_deref(), Some("First"));
}

#[test]
fn workspace_path_without_parent_is_rejected() {
    let doc = WorkspaceDocument { name: s("w"), projects: Vec::new(), matrix: Vec::new() };
    match parse_workspace(&s(""), doc) {
        Err(AppError::Parse { message, .. }) => assert_eq!(message, "workspace 路径没有父目录"),
        other => panic!("unexpected {:?}", other),
    }
}

#[test]
fn project_default_build_config() {
    let p = parse_project(project_doc("app", &["Debug", "Release"]), s("/p/app.cdkproj"), Some(s("Release")));
    assert_eq!(p.default_build_config.as_deref(), Some("Release"));
    assert_eq!(p.path, "/p/app.cdkproj");
    let p = parse_project(project_doc("app", &["Debug", "Release"]), s("/p/app.cdkproj"), Some(s("Other")));
    assert_eq!(p.default_build_config, None);
    let p = parse_project(project_doc("app", &["Only"]), s("/p/app.cdkproj"), Some(s("Other")));
    assert_eq!(p.default_build_config.as_deref(), Some("Only"));
    let p = parse_project(project_doc("app", &["Only"]), s("/p/app.cdkproj"), None);
    assert_eq!(p.default_build_config.as_deref(), Some("Only"));
    let p = parse_project(project_doc("app", &[]), s("/p/app.cdkproj"), None);
    assert_eq!(p.default_build_config, None);
}

#[test]
fn referenced_projects_must_exist_and_match_by_name() {
    assert!(check_project_file(&s("w.cdkws"), &s("/w/a.cdkproj"), true).is_ok());
    match check_project_file(&s("w.cdkws"), &s("/w/a.cdkproj"), false) {
        Err(AppError::Parse { path, message }) => {
            assert_eq!(path, "w.cdkws");
            assert_eq!(message, "引用的项目不存在: /w/a.cdkproj");
        },
        other => panic!("unexpected {:?}", other),
    }
    let doc = WorkspaceDocument {
        name: s("w"),
        projects: vec![WorkspaceEntry { name: s("app"), path: s("a.cdkproj"), active: None }],
        matrix: Vec::new(),
    };
    let plan = parse_workspace(&s("/w/w.cdkws"), doc).unwrap();
    let other: ProjectInfo = parse_project(project_doc("other", &["Debug"]), s("/w/a.cdkproj"), None);
    match admit_project(&plan.path, &plan.projects[0], other) {
        Err(AppError::Parse { message, .. }) => assert_eq!(message, "workspace 项目名 app 与项目文件中的名称 other 不一致"),
        other => panic!("unexpected {:?}", other),
    }
    match parse_message(&s("f"), s("m")) {
        AppError::Parse { path, message } => {
            assert_eq!(path, "f");
            assert_eq!(message, "m");
        },
        other => panic!("unexpected {:?}", other),
    }
}

#[test]
fn yq_output_is_read_as_json() {
    let out = br#"{"CDK_Workspace": {"+@Name": "w", "Project": [{"+@Name": "a"}, {"+@Name": "b"}], "Level": 2.5, "On": true, "Off": null}}"#;
    let json = yq_output_json(&s("/w/w.cdkws"), out).unwrap();
    let root = json.get("CDK_Workspace").unwrap();
    assert_eq!(attr_optional(root, "Name").map(|x| x.as_str()), Some("w"));
    assert_eq!(values(root.get("Project")).len(), 2);
    assert!(matches!(root.get("Level"), Some(Json::Number(n)) if n == "2.5"));
    assert!(matches!(root.get("On"), Some(Json::Bool(true))));
    assert!(matches!(root.get("Off"), Some(Json::Null)));
    let doc = parse_workspace_yq(&s("/w/w.cdkws"), &json);
    match doc {
        Err(AppError::Parse { message, .. }) => assert_eq!(message, "缺少 XML 属性 Path"),
        other => panic!("unexpected {:?}", other),
    }
}

#[test]
fn yq_output_that_is_not_json_is_a_parse_error() {
    match yq_output_json(&s("/w/w.cdkws"), b"<CDK_Workspace/>") {
        Err(AppError::Parse { path, message }) => {
            assert_eq!(path, "/w/w.cdkws");
            assert!(message.starts_with("yq 输出不是有效 JSON: "));
            assert!(message.len() > "yq 输出不是有效 JSON: ".len());
        },
        other => panic!("unexpected {:?}", other),
    }
    assert!(parse_json(b"").is_err());
    assert!(parse_json(b"[1, 2").is_err());
    assert!(matches!(parse_json(b"[]"), Ok(Json::Array(v)) if v.is_empty()));
}

#[test]
fn a_lone_project_reads_like_a_list_of_one() {
    let entry = || obj(vec![("+@Name", text("app")), ("+@Path", text("app/app.cdkproj"))]);
    let mapping = || obj(vec![("+@Name", text("app")), ("+@ConfigName", text("Release"))]);
    let lone = obj(vec![(
        "CDK_Workspace",
        obj(vec![
            ("+@Name", text("w")),
            ("Project", entry()),
            ("BuildMatrix", obj(vec![("WorkspaceConfiguration", obj(vec![("Project", mapping())]))])),
        ]),
    )]);
    let listed = obj(vec![(
        "CDK_Workspace",
        obj(vec![
            ("+@Name", text("w")),
            ("Project", Json::Array(vec![entry()])),
            (
                "BuildMatrix",
                obj(vec![("WorkspaceConfiguration", Json::Array(vec![obj(vec![("Project", Json::Array(vec![mapping()]))])]))]),
            ),
        ]),
    )]);
    let a = parse_workspace_yq(&s("w.cdkws"), &lone).unwrap();
    let b = parse_workspace_yq(&s("w.cdkws"), &listed).unwrap();
    assert_eq!(a.projects.len(), 1);
    assert_eq!(b.projects.len(), 1);
    assert_eq!(a.projects[0].name, b.projects[0].name);
    assert_eq!(a.projects[0].path, b.projects[0].path);
    assert_eq!(a.matrix.len(), b.matrix.len());
    assert_eq!(a.matrix[0].projects, b.matrix[0].projects);

    let lone_config = obj(vec![("Project", obj(vec![("+@Name", text("app")), ("BuildConfigs", obj(vec![("BuildConfig", obj(vec![("+@Name", text("Debug"))]))]))]))]);
    let listed_config = obj(vec![(
        "Project",
        obj(vec![("+@Name", text("app")), ("BuildConfigs", obj(vec![("BuildConfig", Json::Array(vec![obj(vec![("+@Name", text("Debug"))])]))]))]),
    )]);
    assert_eq!(parse_project_yq(&s("p.cdkproj"), &lone_config).unwrap().build_configs, ["Debug"]);
    assert_eq!(parse_project_yq(&s("p.cdkproj"), &listed_config).unwrap().build_configs, ["Debug"]);
}
