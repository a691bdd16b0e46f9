use cdk_make_assistant::error::AppError;
use cdk_make_assistant::model::BuildAction;
use cdk_make_assistant::runner::{display_command, path_string, BuildTarget, Invocation};

#[test]
fn maps_workspace_build_to_cdk_make_arguments() {
    let invocation = Invocation {
        executable: String::from("cdk-make.exe"),
        action: BuildAction::Rebuild,
        target: BuildTarget::Workspace {
            path: String::from(r"C:\work space\sample.cdkws"),
            project: Some("app".into()),
            build_config: Some("BuildSet".into()),
            all: false,
        },
        verbose: true,
        extra: Vec::new(),
    };

    assert_eq!(
        invocation.args().unwrap(),
        [
            "-w",
            r"C:\work space\sample.cdkws",
            "-p",
            "app",
            "-c",
            "BuildSet",
            "-d",
            "rebuild",
            "-v"
        ]
    );
}

#[test]
fn all_rejects_project_specific_arguments() {
    let invocation = Invocation {
        executable: String::from("cdk-make.exe"),
        action: BuildAction::Build,
        target: BuildTarget::Workspace {
            path: String::from("sample.cdkws"),
            project: Some("app".into()),
            build_config: None,
            all: true,
        },
        verbose: false,
        extra: Vec::new(),
    };

    assert!(invocation.args().is_err());
}

fn invocation(target: BuildTarget, action: BuildAction, verbose: bool, extra: Vec<String>) -> Invocation {
    Invocation { executable: String::from("cdk-make.exe"), action, target, verbose, extra }
}

#[test]
fn all_builds_every_project_of_the_workspace() {
    let inv = invocation(
        BuildTarget::Workspace { path: "ws.cdkws".into(), project: None, build_config: None, all: true },
        BuildAction::Clean,
        false,
        vec!["--jobs".into(), "4".into()],
    );
    assert_eq!(inv.args().unwrap(), ["-w", "ws.cdkws", "-a", "-d", "clean", "--jobs", "4"]);
}

#[test]
fn all_rejects_build_config_alone() {
    let inv = invocation(
        BuildTarget::Workspace { path: "ws.cdkws".into(), project: None, build_config: Some("Debug".into()), all: true },
        BuildAction::Build,
        false,
        Vec::new(),
    );
    match inv.args() {
        Err(AppError::Message(m)) => assert_eq!(m, "--all 不能与 --project 或 --config 同时使用"),
        other => panic!("unexpected {:?}", other),
    }
}

#[test]
fn single_project_workspace_build_needs_a_build_set() {
    let inv = invocation(
        BuildTarget::Workspace { path: "ws.cdkws".into(), project: Some("app".into()), build_config: None, all: false },
        BuildAction::Build,
        false,
        Vec::new(),
    );
    match inv.args() {
        Err(AppError::Message(m)) => assert_eq!(m, "workspace 单项目构建必须指定 BuildSet"),
        other => panic!("unexpected {:?}", other),
    }
}

#[test]
fn workspace_build_without_project_names_only_the_build_set() {
    let inv = invocation(
        BuildTarget::Workspace { path: "ws.cdkws".into(), project: None, build_config: Some("Debug".into()), all: false },
        BuildAction::Build,
        false,
        Vec::new(),
    );
    assert_eq!(inv.args().unwrap(), ["-w", "ws.cdkws", "-c", "Debug", "-d", "build"]);
}

#[test]
fn project_build_names_the_project_file() {
    let inv = invocation(
        BuildTarget::Project { path: "app/app.cdkproj".into(), build_config: "Release".into() },
        BuildAction::Build,
        true,
        vec!["-x".into()],
    );
    assert_eq!(inv.args().unwrap(), ["-p", "app/app.cdkproj", "-c", "Release", "-d", "build", "-v", "-x"]);
}

#[test]
fn action_words() {
    assert_eq!(BuildAction::Build.as_str(), "build");
    assert_eq!(BuildAction::Clean.as_str(), "clean");
    assert_eq!(BuildAction::Rebuild.as_str(), "rebuild");
}

#[test]
fn display_quotes_arguments_with_spaces_tabs_and_quotes() {
    let args = vec![
        String::from("-w"),
        String::from(r"C:\work space\sample.cdkws"),
        String::from("a\tb"),
        String::from(r#"say "hi""#),
        String::from("plain"),
    ];
    assert_eq!(
        display_command(&String::from(r"C:\Program Files\cdk-make.exe"), &args),
        r#""C:\Program Files\cdk-make.exe" -w "C:\work space\sample.cdkws" "a	b" "say \"hi\"" plain"#
    );
}

#[test]
fn display_of_a_bare_command() {
    assert_eq!(display_command(&String::from("cdk-make.exe"), &Vec::new()), "cdk-make.exe");
}

#[test]
fn path_text_is_kept() {
    assert_eq!(path_string(&String::from("a b/c")), "a b/c");
}
