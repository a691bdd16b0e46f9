//! The `cdk-make` command line that a build selection maps to.

use vstd::prelude::*;

use crate::error::AppError;
use crate::model::{action_word, BuildAction};
use crate::text::{chars_of, join, push_quoted, quote_arg, string_of};

verus! {

/// What a build acts on: a workspace (one project of it, or all of them) or a
/// standalone project file.
#[allow(inconsistent_fields)]
#[derive(Clone, Debug)]
pub enum BuildTarget {
    Workspace { path: String, project: Option<String>, build_config: Option<String>, all: bool },
    Project { path: String, build_config: String },
}

/// One call of `cdk-make`.
#[derive(Clone, Debug)]
pub struct Invocation {
    pub executable: String,
    pub action: BuildAction,
    pub target: BuildTarget,
    pub verbose: bool,
    pub extra: Vec<String>,
}

/// The model of a build target.
pub enum TargetModel {
    Workspace { path: Seq<char>, project: Option<Seq<char>>, build_config: Option<Seq<char>>, all: bool },
    Project { path: Seq<char>, build_config: Seq<char> },
}

/// The model of an invocation.
pub struct InvocationModel {
    pub executable: Seq<char>,
    pub action: BuildAction,
    pub target: TargetModel,
    pub verbose: bool,
    pub extra: Seq<Seq<char>>,
}

impl View for BuildTarget {
    type V = TargetModel;

    open spec fn view(&self) -> TargetModel {
        match self {
            BuildTarget::Workspace { path, project, build_config, all } => TargetModel::Workspace {
                path: path@,
                project: project.deep_view(),
                build_config: build_config.deep_view(),
                all: *all,
            },
            BuildTarget::Project { path, build_config } => TargetModel::Project {
                path: path@,
                build_config: build_config@,
            },
        }
    }
}

impl View for Invocation {
    type V = InvocationModel;

    open spec fn view(&self) -> InvocationModel {
        InvocationModel {
            executable: self.executable@,
            action: self.action,
            target: self.target@,
            verbose: self.verbose,
            extra: self.extra.deep_view(),
        }
    }
}

/// The text of the error for `--all` combined with a project or a build configuration.
pub open spec fn all_conflict_text() -> Seq<char> {
    "--all 不能与 --project 或 --config 同时使用"@
}

/// The text of the error for a single-project workspace build without a build configuration.
pub open spec fn missing_build_set_text() -> Seq<char> {
    "workspace 单项目构建必须指定 BuildSet"@
}

/// The target's part of the command line, or the text of the error that the target gives.
pub open spec fn target_args(target: BuildTarget) -> Result<Seq<Seq<char>>, Seq<char>> {
    match target {
        BuildTarget::Workspace { path, project, build_config, all } => {
            if all {
                if project is Some || build_config is Some {
                    Err(all_conflict_text())
                } else {
                    Ok(seq!["-w"@, path@, "-a"@])
                }
            } else {
                match build_config {
                    None => Err(missing_build_set_text()),
                    Some(config) => Ok(
                        seq!["-w"@, path@] + match project {
                            Some(p) => seq!["-p"@, p@],
                            None => Seq::empty(),
                        } + seq!["-c"@, config@],
                    ),
                }
            }
        },
        BuildTarget::Project { path, build_config } => Ok(
            seq!["-p"@, path@, "-c"@, build_config@],
        ),
    }
}

/// The arguments that `cdk-make` receives for an invocation, or the text of the error.
pub open spec fn invocation_args(inv: Invocation) -> Result<Seq<Seq<char>>, Seq<char>> {
    match target_args(inv.target) {
        Err(e) => Err(e),
        Ok(t) => Ok(
            t + seq!["-d"@, action_word(inv.action)] + (if inv.verbose {
                seq!["-v"@]
            } else {
                Seq::empty()
            }) + views(inv.extra@),
        ),
    }
}

/// The command line as shown to a user: the executable and every argument, each quoted
/// where it needs it, separated by single spaces.
pub open spec fn command_line(executable: Seq<char>, args: Seq<Seq<char>>) -> Seq<char> {
    join(
        (seq![executable] + args).map_values(|a: Seq<char>| quote_arg(a)),
        " "@,
    )
}

/// The texts of a sequence of strings.
pub open spec fn views(v: Seq<String>) -> Seq<Seq<char>> {
    v.map_values(|s: String| s@)
}

fn push_view(v: &mut Vec<String>, s: String)
    ensures
        views(final(v)@) == views(old(v)@).push(s@),
{
    v.push(s);
    assert(views(v@) =~= views(old(v)@).push(s@));
}

fn owned(s: &str) -> (r: String)
    ensures
        r@ == s@,
{
    String::from_str(s)
}

impl Invocation {
    /// The arguments of this invocation, in the order `cdk-make` expects them.
    pub fn args(&self) -> (r: Result<Vec<String>, AppError>)
        ensures
            match invocation_args(*self) {
                Ok(a) => r matches Ok(v) && views(v@) == a,
                Err(e) => r matches Err(AppError::Message(m)) && m@ == e,
            },
    {
        let mut args: Vec<String> = Vec::new();
        match &self.target {
            BuildTarget::Workspace { path, project, build_config, all } => {
                push_view(&mut args, owned("-w"));
                push_view(&mut args, path_string(path));
                if *all {
                    if project.is_some() || build_config.is_some() {
                        return Err(AppError::Message(owned("--all 不能与 --project 或 --config 同时使用")));
                    }
                    push_view(&mut args, owned("-a"));
                    assert(views(args@) =~= seq!["-w"@, path@, "-a"@]);
                } else {
                    if let Some(project) = project {
                        push_view(&mut args, owned("-p"));
                        push_view(&mut args, project.clone());
                    }
                    match build_config {
                        Some(config) => {
                            push_view(&mut args, owned("-c"));
                            push_view(&mut args, config.clone());
                            assert(views(args@) =~= seq!["-w"@, path@] + match project {
                                Some(p) => seq!["-p"@, p@],
                                None => Seq::empty(),
                            } + seq!["-c"@, config@]);
                        },
                        None => {
                            return Err(AppError::Message(owned("workspace 单项目构建必须指定 BuildSet")));
                        },
                    }
                }
            },
            BuildTarget::Project { path, build_config } => {
                push_view(&mut args, owned("-p"));
                push_view(&mut args, path_string(path));
                push_view(&mut args, owned("-c"));
                push_view(&mut args, build_config.clone());
                assert(views(args@) =~= seq!["-p"@, path@, "-c"@, build_config@]);
            },
        }
        let ghost target_part = views(args@);
        assert(target_args(self.target) == Ok::<Seq<Seq<char>>, Seq<char>>(target_part));
        push_view(&mut args, owned("-d"));
        push_view(&mut args, owned(self.action.as_str()));
        if self.verbose {
            push_view(&mut args, owned("-v"));
        }
        assert(views(args@) =~= target_part + seq!["-d"@, action_word(self.action)] + (if self.verbose {
            seq!["-v"@]
        } else {
            Seq::empty()
        }));
        let ghost fixed = views(args@);
        let mut i: usize = 0;
        while i < self.extra.len()
            invariant
                i <= self.extra.len(),
                views(args@) == fixed + views(self.extra@).take(i as int),
            decreases self.extra.len() - i,
        {
            push_view(&mut args, self.extra[i].clone());
            i = i + 1;
            assert(views(args@) =~= fixed + views(self.extra@).take(i as int));
        }
        assert(views(self.extra@).take(self.extra.len() as int) =~= views(self.extra@));
        assert(invocation_args(*self) == Ok::<Seq<Seq<char>>, Seq<char>>(views(args@)));
        Ok(args)
    }
}

/// The text of a path as passed on a command line.
pub fn path_string(path: &String) -> (r: String)
    ensures
        r@ == path@,
{
    path.clone()
}

/// The command line as shown for a dry run.
pub fn display_command(executable: &String, args: &Vec<String>) -> (r: String)
    ensures
        r@ == command_line(executable@, views(args@)),
{
    let ghost parts = (seq![executable@] + views(args@)).map_values(
        |a: Seq<char>| quote_arg(a),
    );
    let mut out: Vec<char> = Vec::new();
    push_quoted(&mut out, &chars_of(executable.as_str()));
    assert(parts.take(1) =~= seq![parts[0]]);
    let mut i: usize = 0;
    while i < args.len()
        invariant
            i <= args.len(),
            parts == (seq![executable@] + views(args@)).map_values(
                |a: Seq<char>| quote_arg(a),
            ),
            out@ == join(parts.take(i + 1), " "@),
        decreases args.len() - i,
    {
        proof {
            reveal_strlit(" ");
        }
        let ghost before = out@;
        out.push(' ');
        let a = chars_of(args[i].as_str());
        push_quoted(&mut out, &a);
        assert(a@ == views(args@)[i as int]);
        assert(out@ == before + seq![' '] + quote_arg(a@));
        assert(parts.take(i + 2).drop_last() =~= parts.take(i + 1));
        assert(parts[i + 1] == quote_arg(views(args@)[i as int]));
        assert(parts.take(i + 2).last() == parts[i + 1]);
        assert(join(parts.take(i + 2), " "@) == join(parts.take(i + 1), " "@) + " "@ + parts[i + 1]);
        i = i + 1;
        assert(out@ =~= join(parts.take(i + 1), " "@));
    }
    assert(parts.take(args.len() + 1) =~= parts);
    string_of(&out)
}

} // verus!
