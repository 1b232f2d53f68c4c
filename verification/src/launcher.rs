//! What to start: the command line, environment, streams and working
//! directory of the backend process, as plain values. Creating the process
//! from such a plan is left to the caller.

use crate::config::{resolved_config, BackendConfig, ConfigModel, PORT_VAR};
use vstd::prelude::*;

verus! {

/// Subcommand of the package runner that runs a program in the project's
/// environment.
pub const RUN_SUBCOMMAND: &'static str = "run";

/// Interpreter flag that runs a module by name.
pub const MODULE_FLAG: &'static str = "-m";

/// Module that holds the backend server.
pub const SERVER_MODULE: &'static str = "app.api.server";

/// What one of the child's standard streams is connected to.
#[derive(Clone, Copy, Debug, PartialEq, Eq, Structural)]
pub enum StdioMode {
    /// Closed: the child reads end of input at once.
    Null,
    /// The parent's own stream.
    Inherit,
}

/// Mathematical content of a `LaunchPlan`.
pub struct LaunchModel {
    pub program: Seq<char>,
    pub args: Seq<Seq<char>>,
    pub env: Seq<(Seq<char>, Seq<char>)>,
    pub workdir: Option<Seq<char>>,
    pub stdin: StdioMode,
    pub stdout: StdioMode,
    pub stderr: StdioMode,
}

/// Everything needed to start the backend process.
#[derive(Debug, PartialEq, Eq)]
pub struct LaunchPlan {
    /// Executable to run.
    pub program: String,
    /// Its arguments, in order.
    pub args: Vec<String>,
    /// Variables added to the environment the child inherits, as name and
    /// value.
    pub env: Vec<(String, String)>,
    /// Directory to start the child in; `None` leaves it in the parent's
    /// current directory.
    pub workdir: Option<String>,
    /// The child's standard input.
    pub stdin: StdioMode,
    /// The child's standard output.
    pub stdout: StdioMode,
    /// The child's standard error.
    pub stderr: StdioMode,
}

impl View for LaunchPlan {
    type V = LaunchModel;

    open spec fn view(&self) -> LaunchModel {
        LaunchModel {
            program: self.program@,
            args: self.args.deep_view(),
            env: self.env.deep_view(),
            workdir: self.workdir.deep_view(),
            stdin: self.stdin,
            stdout: self.stdout,
            stderr: self.stderr,
        }
    }
}

/// The launch of the backend under a configuration: the runner runs the
/// interpreter on the server module, the port travels in the environment,
/// standard input is closed and both output streams are the parent's.
pub open spec fn backend_launch(config: ConfigModel, workdir: Option<Seq<char>>) -> LaunchModel {
    LaunchModel {
        program: config.runner,
        args: seq![RUN_SUBCOMMAND@, config.interpreter, MODULE_FLAG@, SERVER_MODULE@],
        env: seq![(PORT_VAR@, config.port)],
        workdir,
        stdin: StdioMode::Null,
        stdout: StdioMode::Inherit,
        stderr: StdioMode::Inherit,
    }
}

/// What `std::path::Path::parent` returns for a path given as text, under
/// the path syntax of the platform the crate is built for: the path without
/// its final component, or `None` where it has none to drop.
pub uninterp spec fn path_parent(path: Seq<char>) -> Option<Seq<char>>;

/// Calls `std::path::Path::parent` on `path`. Trusted: the result is the
/// standard library's parent of that path, which depends on the path's text
/// alone; nothing about its shape is claimed.
#[verifier::external_body]
fn parent_dir(path: &str) -> (parent: Option<String>)
    ensures
        parent.deep_view() == path_parent(path@),
{
    match std::path::Path::new(path).parent() {
        Some(dir) => Some(dir.to_string_lossy().into_owned()),
        None => None,
    }
}

/// The directory two levels above `manifest_dir`, where both levels exist.
pub open spec fn workdir_of(manifest_dir: Seq<char>) -> Option<Seq<char>> {
    match path_parent(manifest_dir) {
        Some(dir) => path_parent(dir),
        None => None,
    }
}

/// The working directory of a launch, given the directory of the launcher's
/// manifest where the build recorded one.
pub open spec fn workdir_from(manifest_dir: Option<Seq<char>>) -> Option<Seq<char>> {
    match manifest_dir {
        Some(dir) => workdir_of(dir),
        None => None,
    }
}

/// Resolves the backend's working directory, the project root, by walking
/// two levels up from the directory that holds the launcher's manifest.
/// `None` where the walk runs out of parents; the backend then starts in the
/// launcher's current directory.
pub fn backend_workdir(manifest_dir: &str) -> (dir: Option<String>)
    ensures
        dir.deep_view() == workdir_of(manifest_dir@),
{
    match parent_dir(manifest_dir) {
        Some(dir) => parent_dir(dir.as_str()),
        None => None,
    }
}

impl LaunchPlan {
    /// Plans the launch of the backend under `config`, started in `workdir`
    /// where one is given.
    pub fn for_backend(config: BackendConfig, workdir: Option<String>) -> (plan: LaunchPlan)
        ensures
            plan@ == backend_launch(config@, workdir.deep_view()),
    {
        let mut args: Vec<String> = Vec::new();
        args.push(RUN_SUBCOMMAND.to_owned());
        args.push(config.interpreter);
        args.push(MODULE_FLAG.to_owned());
        args.push(SERVER_MODULE.to_owned());
        let mut env: Vec<(String, String)> = Vec::new();
        env.push((PORT_VAR.to_owned(), config.port));
        let plan = LaunchPlan {
            program: config.runner,
            args,
            env,
            workdir,
            stdin: StdioMode::Null,
            stdout: StdioMode::Inherit,
            stderr: StdioMode::Inherit,
        };
        proof {
            let model = backend_launch(config@, workdir.deep_view());
            assert(plan@.args =~= model.args);
            assert(plan@.env =~= model.env);
        }
        plan
    }
}

/// Plans one launch attempt from what the three environment variables hold
/// (`None` for an unset one) and from the directory of the launcher's
/// manifest as the build recorded it (`None` where it recorded none). The
/// configuration is resolved afresh and the working directory is looked for
/// two levels above the manifest; where there is no such directory the plan
/// names none.
pub fn launch_plan(
    runner: Option<String>,
    interpreter: Option<String>,
    port: Option<String>,
    manifest_dir: Option<&str>,
) -> (plan: LaunchPlan)
    ensures
        plan@ == backend_launch(
            resolved_config(runner.deep_view(), interpreter.deep_view(), port.deep_view()),
            workdir_from(manifest_dir.deep_view()),
        ),
{
    let config = BackendConfig::resolve(runner, interpreter, port);
    let workdir = match manifest_dir {
        Some(dir) => backend_workdir(dir),
        None => None,
    };
    LaunchPlan::for_backend(config, workdir)
}

} // verus!
