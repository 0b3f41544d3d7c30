//! The startup plan: what to look at, what to prepare, what to launch.
//!
//! Startup goes in two moves. First the caller learns which paths bear on
//! the plan and looks for each on disk. Then it hands back what it saw and
//! receives the plan. Which paths matter depends on the mode: none when a
//! server already answers, the two configuration files inside the sandbox,
//! the install locations of the runtime outside it.

use crate::environment::{Environment, EnvironmentView};
use crate::launch::{
    launch_mode, plan_launch, planned_config, select_mode, LaunchConfig, LaunchConfigView,
    LaunchMode,
};
use crate::preparation::{
    config_destination, plan_preparation, preparation_steps, user_config_path, Preparation,
    PreparationView, BUNDLED_CONFIG,
};
use crate::resolver::{bun_candidates, candidate_paths};
use vstd::prelude::*;
use vstd::string::StringExecFns;

verus! {

/// Everything that startup does before the window opens.
#[derive(Debug, PartialEq, Eq)]
pub struct StartupPlan {
    /// Filesystem steps to perform first, in order, discarding errors.
    pub preparation: Vec<Preparation>,
    /// The server to spawn and wait for, unless one is already running.
    pub launch: Option<LaunchConfig>,
}

/// Mathematical model of a [`StartupPlan`].
pub struct StartupPlanView {
    pub preparation: Seq<PreparationView>,
    pub launch: Option<LaunchConfigView>,
}

impl View for StartupPlan {
    type V = StartupPlanView;

    open spec fn view(&self) -> StartupPlanView {
        StartupPlanView {
            preparation: self.preparation.deep_view(),
            launch: self.launch.deep_view(),
        }
    }
}

/// Whether path `i` was looked for and seen. A path without an observation
/// counts as not seen.
pub open spec fn seen(observed: Seq<bool>, i: int) -> bool {
    0 <= i < observed.len() && observed[i]
}

/// The paths whose presence on disk bears on the plan in `mode`.
pub open spec fn observed_paths(mode: LaunchMode, env: EnvironmentView) -> Seq<Seq<char>> {
    match mode {
        LaunchMode::External => Seq::empty(),
        LaunchMode::Sandboxed => seq![user_config_path(env), BUNDLED_CONFIG@],
        LaunchMode::Normal => candidate_paths(env),
    }
}

/// The plan for what was observed. `observed[i]` tells of path `i` of
/// [`observed_paths`] for the same mode.
pub open spec fn planned_startup(
    server_already_running: bool,
    env: EnvironmentView,
    observed: Seq<bool>,
) -> StartupPlanView {
    match launch_mode(server_already_running, env.is_sandboxed()) {
        LaunchMode::External => StartupPlanView { preparation: Seq::empty(), launch: None },
        LaunchMode::Sandboxed => StartupPlanView {
            preparation: preparation_steps(
                LaunchMode::Sandboxed,
                env,
                seen(observed, 0),
                seen(observed, 1),
            ),
            launch: Some(planned_config(env, observed)),
        },
        LaunchMode::Normal => StartupPlanView {
            preparation: Seq::empty(),
            launch: Some(planned_config(env, observed)),
        },
    }
}

/// A server that already answers is left alone whatever the environment
/// says: nothing is looked for, nothing prepared and nothing launched, so
/// no process is spawned.
pub proof fn lemma_running_server_is_left_alone(env: EnvironmentView, observed: Seq<bool>)
    ensures
        observed_paths(launch_mode(true, env.is_sandboxed()), env) == Seq::<Seq<char>>::empty(),
        planned_startup(true, env, observed).preparation == Seq::<PreparationView>::empty(),
        planned_startup(true, env, observed).launch is None,
{
}

/// Unless a server already answers, one is launched: with the sandbox
/// variable set from the packaging's fixed paths, with it unset from the
/// paths that the environment and the disk give.
pub proof fn lemma_launch_follows_sandbox_variable(env: EnvironmentView, observed: Seq<bool>)
    ensures
        planned_startup(false, env, observed).launch == Some(planned_config(env, observed)),
        env.sandbox_id is Some ==> launch_mode(false, env.is_sandboxed()) == LaunchMode::Sandboxed,
        env.sandbox_id is None ==> launch_mode(false, env.is_sandboxed()) == LaunchMode::Normal,
{
}

/// The paths to look for on disk before planning, in the order in which
/// [`plan_startup`] expects the observations.
pub fn paths_to_observe(server_already_running: bool, env: &Environment) -> (paths: Vec<String>)
    ensures
        paths.deep_view() == observed_paths(
            launch_mode(server_already_running, env@.is_sandboxed()),
            env@,
        ),
{
    match select_mode(server_already_running, env.is_sandboxed()) {
        LaunchMode::External => {
            let paths: Vec<String> = Vec::new();
            assert(paths.deep_view() =~= Seq::<Seq<char>>::empty());
            paths
        },
        LaunchMode::Sandboxed => {
            let mut paths: Vec<String> = Vec::new();
            paths.push(config_destination(env));
            paths.push(String::from_str(BUNDLED_CONFIG));
            assert(paths.deep_view() =~= seq![user_config_path(env@), BUNDLED_CONFIG@]);
            paths
        },
        LaunchMode::Normal => bun_candidates(env),
    }
}

/// Plans the startup. `observed[i]` says whether path `i` of
/// [`paths_to_observe`], asked with the same arguments, exists on disk.
pub fn plan_startup(server_already_running: bool, env: &Environment, observed: &Vec<bool>) -> (plan:
    StartupPlan)
    ensures
        plan@ == planned_startup(server_already_running, env@, observed@),
{
    let sandboxed = env.is_sandboxed();
    let destination_exists = sandboxed && observed.len() > 0 && observed[0];
    let bundled_exists = sandboxed && observed.len() > 1 && observed[1];
    StartupPlan {
        preparation: plan_preparation(
            server_already_running,
            env,
            destination_exists,
            bundled_exists,
        ),
        launch: plan_launch(server_already_running, env, observed),
    }
}

} // verus!
