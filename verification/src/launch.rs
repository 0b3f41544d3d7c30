//! Planning the launch of the backend server.
//!
//! Two observations decide which of three paths startup takes: whether a
//! server already answers on the well-known port, and whether the process
//! runs inside the sandboxed packaging. A server that already answers always
//! wins: nothing is launched then, whatever the environment says.

use crate::environment::{Environment, EnvironmentView, DATA_DIR_SUFFIX, SOURCE_DIR_SUFFIX};
use crate::resolver::{bun_candidates, candidate_paths, find_bun, resolved_path};
use vstd::prelude::*;
use vstd::string::StringExecFns;

verus! {

/// The local TCP port on which the server listens. It serves both to detect
/// a server that is already running and to tell when a launched one is ready.
pub const SERVER_PORT: u16 = 1420;

/// The address of the local host, on which the server listens.
pub const SERVER_HOST: &'static str = "127.0.0.1";

/// How long, in seconds, a launched server is given to become ready.
pub const READINESS_TIMEOUT_SECS: u64 = 15;

/// Where the sandboxed packaging keeps the server's sources.
pub const SANDBOX_SOURCE_DIR: &'static str = "/app/share/portfolio_60";

/// Where the sandboxed packaging keeps the runtime executable.
pub const SANDBOX_EXECUTABLE: &'static str = "/app/bin/bun";

/// Name of the variable that tells a sandboxed server where to keep its
/// data.
pub const DATA_DIR_VAR: &'static str = "PORTFOLIO60_DATA_DIR";

/// First argument to the runtime: execute a script.
pub const RUN_ARGUMENT: &'static str = "run";

/// Second argument to the runtime: the server's entry point, relative to
/// the working directory.
pub const ENTRY_POINT: &'static str = "src/server/index.js";

/// How the diagnostic for a failed spawn begins; the executable follows.
pub const SPAWN_FAILURE_HEAD: &'static str = "Failed to start Bun server.\n  Bun path: ";

/// What precedes the working directory in that diagnostic.
pub const SPAWN_FAILURE_DIR: &'static str = "\n  Project dir: ";

/// What precedes the operating system's error in that diagnostic.
pub const SPAWN_FAILURE_ERROR: &'static str = "\n  Error: ";

/// The three paths that startup can take.
#[derive(Clone, Copy, Debug, PartialEq, Eq, Structural)]
pub enum LaunchMode {
    /// A server already answers on the port: launch nothing, own nothing.
    External,
    /// Launch from the fixed locations of the sandboxed packaging.
    Sandboxed,
    /// Launch from locations derived from the home directory or overrides.
    Normal,
}

/// The mode for the two startup observations. A server that is already
/// running takes precedence over the sandbox.
pub open spec fn launch_mode(server_already_running: bool, sandboxed: bool) -> LaunchMode {
    if server_already_running {
        LaunchMode::External
    } else if sandboxed {
        LaunchMode::Sandboxed
    } else {
        LaunchMode::Normal
    }
}

/// Decides which path startup takes.
pub fn select_mode(server_already_running: bool, sandboxed: bool) -> (mode: LaunchMode)
    ensures
        mode == launch_mode(server_already_running, sandboxed),
{
    if server_already_running {
        LaunchMode::External
    } else if sandboxed {
        LaunchMode::Sandboxed
    } else {
        LaunchMode::Normal
    }
}

/// Everything needed to launch the server and to wait for it. Computed once
/// at startup; there is no way to change one afterwards.
#[derive(Debug, PartialEq, Eq)]
pub struct LaunchConfig {
    executable: String,
    working_dir: String,
    data_dir: Option<String>,
    port: u16,
    timeout_secs: u64,
}

/// Mathematical model of a [`LaunchConfig`].
pub struct LaunchConfigView {
    /// Path of the runtime executable, or a bare command name.
    pub executable: Seq<char>,
    /// Directory in which the server runs.
    pub working_dir: Seq<char>,
    /// Data directory handed to the server through its environment; only a
    /// sandboxed launch has one.
    pub data_dir: Option<Seq<char>>,
    /// Port on which the server is expected to listen.
    pub port: u16,
    /// Seconds granted to the server to become ready.
    pub timeout_secs: u64,
}

/// A process invocation, ready to be handed to the operating system.
#[derive(Debug, PartialEq, Eq)]
pub struct ServerCommand {
    /// The program to execute.
    pub program: String,
    /// Its arguments, in order.
    pub args: Vec<String>,
    /// The directory in which it runs.
    pub current_dir: String,
    /// Variables added to the environment it inherits, as name and value.
    pub env: Vec<(String, String)>,
}

/// Mathematical model of a [`ServerCommand`].
pub struct ServerCommandView {
    pub program: Seq<char>,
    pub args: Seq<Seq<char>>,
    pub current_dir: Seq<char>,
    pub env: Seq<(Seq<char>, Seq<char>)>,
}

impl View for ServerCommand {
    type V = ServerCommandView;

    open spec fn view(&self) -> ServerCommandView {
        ServerCommandView {
            program: self.program@,
            args: self.args.deep_view(),
            current_dir: self.current_dir@,
            env: self.env.deep_view(),
        }
    }
}

impl LaunchConfigView {
    /// The diagnostic for a spawn that the operating system refused: it
    /// names the executable, the working directory and the system's error.
    pub open spec fn spawn_failure(self, error: Seq<char>) -> Seq<char> {
        SPAWN_FAILURE_HEAD@ + self.executable + SPAWN_FAILURE_DIR@ + self.working_dir
            + SPAWN_FAILURE_ERROR@ + error
    }

    /// The invocation that launches the server: the runtime with its two
    /// fixed arguments, in the working directory, with the data directory
    /// passed on through the environment when there is one.
    pub open spec fn command(self) -> ServerCommandView {
        ServerCommandView {
            program: self.executable,
            args: seq![RUN_ARGUMENT@, ENTRY_POINT@],
            current_dir: self.working_dir,
            env: match self.data_dir {
                Some(dir) => seq![(DATA_DIR_VAR@, dir)],
                None => Seq::empty(),
            },
        }
    }
}

/// The configuration for a launch, given that one is needed.
///
/// Inside the sandbox the executable and the working directory are fixed by
/// the packaging, and the server is told to keep its data in the per-user
/// data directory, since the packaged sources cannot be written to. Outside
/// it the executable is resolved from the observed install locations, the
/// working directory comes from the override or the home directory, and no
/// data directory is handed over: the server keeps its own default.
pub open spec fn planned_config(env: EnvironmentView, present: Seq<bool>) -> LaunchConfigView {
    LaunchConfigView {
        executable: if env.is_sandboxed() {
            SANDBOX_EXECUTABLE@
        } else {
            resolved_path(candidate_paths(env), present)
        },
        working_dir: if env.is_sandboxed() {
            SANDBOX_SOURCE_DIR@
        } else {
            env.source_dir()
        },
        data_dir: if env.is_sandboxed() {
            Some(env.data_dir())
        } else {
            None
        },
        port: SERVER_PORT,
        timeout_secs: READINESS_TIMEOUT_SECS,
    }
}

/// Inside the sandbox the executable and the working directory are the
/// packaging's own, whatever else the environment names and whatever lies
/// on disk; the data directory is the per-user one, and it is passed on to
/// the server through its environment.
pub proof fn lemma_sandboxed_paths_are_fixed(env: EnvironmentView, present: Seq<bool>)
    requires
        env.is_sandboxed(),
    ensures
        planned_config(env, present).executable == SANDBOX_EXECUTABLE@,
        planned_config(env, present).working_dir == SANDBOX_SOURCE_DIR@,
        planned_config(env, present).data_dir == Some(env.home_dir() + DATA_DIR_SUFFIX@),
        planned_config(env, present).command().env == seq![
            (DATA_DIR_VAR@, env.home_dir() + DATA_DIR_SUFFIX@),
        ],
{
}

/// Outside the sandbox the working directory is the override when one is
/// set and lies below the home directory otherwise, the executable is the
/// resolved one, and there is no data directory: nothing is added to the
/// server's environment.
pub proof fn lemma_normal_paths_follow_environment(env: EnvironmentView, present: Seq<bool>)
    requires
        !env.is_sandboxed(),
    ensures
        env.source_dir matches Some(dir) ==> planned_config(env, present).working_dir == dir,
        env.source_dir is None ==> planned_config(env, present).working_dir == env.home_dir()
            + SOURCE_DIR_SUFFIX@,
        planned_config(env, present).executable == resolved_path(candidate_paths(env), present),
        planned_config(env, present).data_dir is None,
        planned_config(env, present).command().env == Seq::<(Seq<char>, Seq<char>)>::empty(),
{
}

/// Every planned launch waits on the well-known port for the fixed time
/// and runs the server's entry point, in its working directory. The data
/// directory is passed on exactly when the launch is sandboxed.
pub proof fn lemma_launch_is_uniform(env: EnvironmentView, present: Seq<bool>)
    ensures
        planned_config(env, present).port == SERVER_PORT,
        planned_config(env, present).timeout_secs == READINESS_TIMEOUT_SECS,
        planned_config(env, present).command().program == planned_config(env, present).executable,
        planned_config(env, present).command().args == seq![RUN_ARGUMENT@, ENTRY_POINT@],
        planned_config(env, present).command().current_dir == planned_config(
            env,
            present,
        ).working_dir,
        planned_config(env, present).command().env.len() == 1 <==> env.is_sandboxed(),
        planned_config(env, present).command().env.len() == 0 <==> !env.is_sandboxed(),
{
}

impl View for LaunchConfig {
    type V = LaunchConfigView;

    closed spec fn view(&self) -> LaunchConfigView {
        LaunchConfigView {
            executable: self.executable@,
            working_dir: self.working_dir@,
            data_dir: self.data_dir.deep_view(),
            port: self.port,
            timeout_secs: self.timeout_secs,
        }
    }
}

impl DeepView for LaunchConfig {
    type V = LaunchConfigView;

    open spec fn deep_view(&self) -> LaunchConfigView {
        self@
    }
}

impl LaunchConfig {
    /// Path of the runtime executable, or a bare command name.
    pub fn executable(&self) -> (path: &str)
        ensures
            path@ == self@.executable,
    {
        self.executable.as_str()
    }

    /// Directory in which the server runs.
    pub fn working_dir(&self) -> (dir: &str)
        ensures
            dir@ == self@.working_dir,
    {
        self.working_dir.as_str()
    }

    /// Data directory handed to the server; `None` outside the sandbox.
    pub fn data_dir(&self) -> (dir: Option<&str>)
        ensures
            dir.deep_view() == self@.data_dir,
    {
        match &self.data_dir {
            Some(dir) => Some(dir.as_str()),
            None => None,
        }
    }

    /// Port on which the server is expected to listen.
    pub fn port(&self) -> (port: u16)
        ensures
            port == self@.port,
    {
        self.port
    }

    /// Seconds granted to the server to become ready.
    pub fn timeout_secs(&self) -> (secs: u64)
        ensures
            secs == self@.timeout_secs,
    {
        self.timeout_secs
    }

    /// The message with which startup is abandoned when the spawn fails.
    /// `error` is the operating system's account of the failure. The
    /// failure is fatal and is not retried.
    pub fn spawn_failure_message(&self, error: &str) -> (message: String)
        ensures
            message@ == self@.spawn_failure(error@),
    {
        let mut message = String::from_str(SPAWN_FAILURE_HEAD);
        message.append(self.executable.as_str());
        message.append(SPAWN_FAILURE_DIR);
        message.append(self.working_dir.as_str());
        message.append(SPAWN_FAILURE_ERROR);
        message.append(error);
        message
    }

    /// The invocation that launches the server.
    pub fn command(&self) -> (command: ServerCommand)
        ensures
            command@ == self@.command(),
    {
        let mut args: Vec<String> = Vec::new();
        args.push(String::from_str(RUN_ARGUMENT));
        args.push(String::from_str(ENTRY_POINT));
        let mut env: Vec<(String, String)> = Vec::new();
        match &self.data_dir {
            Some(dir) => {
                env.push((String::from_str(DATA_DIR_VAR), dir.clone()));
            },
            None => {},
        }
        assert(args.deep_view() =~= self@.command().args);
        assert(env.deep_view() =~= self@.command().env);
        ServerCommand {
            program: self.executable.clone(),
            args,
            current_dir: self.working_dir.clone(),
            env,
        }
    }
}

/// Plans the launch from the startup observations.
///
/// `present[i]` says whether the `i`-th path of
/// [`bun_candidates`](crate::resolver::bun_candidates) exists on disk; it is
/// consulted only outside the sandbox. Returns `None` exactly when a server
/// is already running, in which case nothing may be spawned.
pub fn plan_launch(server_already_running: bool, env: &Environment, present: &Vec<bool>) -> (plan:
    Option<LaunchConfig>)
    ensures
        plan is None <==> server_already_running,
        plan matches Some(config) ==> config@ == planned_config(env@, present@),
{
    match select_mode(server_already_running, env.is_sandboxed()) {
        LaunchMode::External => None,
        LaunchMode::Sandboxed => Some(
            LaunchConfig {
                executable: String::from_str(SANDBOX_EXECUTABLE),
                working_dir: String::from_str(SANDBOX_SOURCE_DIR),
                data_dir: Some(env.data_dir()),
                port: SERVER_PORT,
                timeout_secs: READINESS_TIMEOUT_SECS,
            },
        ),
        LaunchMode::Normal => {
            let candidates = bun_candidates(env);
            Some(
                LaunchConfig {
                    executable: find_bun(&candidates, present),
                    working_dir: env.source_dir(),
                    data_dir: None,
                    port: SERVER_PORT,
                    timeout_secs: READINESS_TIMEOUT_SECS,
                },
            )
        },
    }
}

} // verus!
