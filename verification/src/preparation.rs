//! What has to be in place on disk before the server is launched.
//!
//! Only a sandboxed launch prepares anything. Inside the sandbox the bundled
//! sources are read-only, so the server keeps its data in a per-user
//! directory, which is created if it is missing, and on the first run the
//! bundled default configuration is copied into it, where the server can
//! change it. The copy is a one-time migration: it is planned only while the
//! destination does not exist. All steps are best effort; the caller
//! discards their errors.

use crate::environment::{Environment, EnvironmentView};
use crate::launch::{launch_mode, select_mode, LaunchMode};
use vstd::prelude::*;
use vstd::string::StringExecFns;

verus! {

/// The default configuration file that the sandboxed packaging bundles.
pub const BUNDLED_CONFIG: &'static str = "/app/share/portfolio_60/src/shared/config.json";

/// Where the configuration file lies below the data directory.
pub const CONFIG_FILE_SUFFIX: &'static str = "/config.json";

/// One filesystem step to perform before the launch.
#[derive(Debug, PartialEq, Eq)]
pub enum Preparation {
    /// Create the directory, and its parents, unless it exists.
    CreateDir { path: String },
    /// Copy one file.
    CopyFile { from: String, to: String },
}

/// Mathematical model of a [`Preparation`].
pub enum PreparationView {
    CreateDir { path: Seq<char> },
    CopyFile { from: Seq<char>, to: Seq<char> },
}

impl View for Preparation {
    type V = PreparationView;

    open spec fn view(&self) -> PreparationView {
        match self {
            Preparation::CreateDir { path } => PreparationView::CreateDir { path: path@ },
            Preparation::CopyFile { from, to } => PreparationView::CopyFile {
                from: from@,
                to: to@,
            },
        }
    }
}

impl DeepView for Preparation {
    type V = PreparationView;

    open spec fn deep_view(&self) -> PreparationView {
        self@
    }
}

/// The per-user configuration file, inside the data directory.
pub open spec fn user_config_path(env: EnvironmentView) -> Seq<char> {
    env.data_dir() + CONFIG_FILE_SUFFIX@
}

/// Whether the bundled configuration has to be copied: only inside the
/// sandbox, only while the user has no configuration yet, and only if there
/// is a bundled one to copy.
pub open spec fn seed_needed(
    mode: LaunchMode,
    destination_exists: bool,
    bundled_exists: bool,
) -> bool {
    mode == LaunchMode::Sandboxed && !destination_exists && bundled_exists
}

/// The steps to perform, in order, for a launch in `mode`: none outside the
/// sandbox; inside it the data directory first, then the copy if needed.
pub open spec fn preparation_steps(
    mode: LaunchMode,
    env: EnvironmentView,
    destination_exists: bool,
    bundled_exists: bool,
) -> Seq<PreparationView> {
    let create = PreparationView::CreateDir { path: env.data_dir() };
    let copy = PreparationView::CopyFile { from: BUNDLED_CONFIG@, to: user_config_path(env) };
    if mode != LaunchMode::Sandboxed {
        Seq::empty()
    } else if seed_needed(mode, destination_exists, bundled_exists) {
        seq![create, copy]
    } else {
        seq![create]
    }
}

/// How many of `steps` copy a file.
pub open spec fn copies(steps: Seq<PreparationView>) -> nat
    decreases steps.len(),
{
    if steps.len() == 0 {
        0
    } else {
        copies(steps.drop_last()) + if steps.last() is CopyFile {
            1nat
        } else {
            0nat
        }
    }
}

/// The bundled configuration is copied at most once per plan, and exactly
/// when it is needed; the copy goes from the bundled file to the user's.
pub proof fn lemma_copies_when_needed(
    mode: LaunchMode,
    env: EnvironmentView,
    destination_exists: bool,
    bundled_exists: bool,
)
    ensures
        copies(preparation_steps(mode, env, destination_exists, bundled_exists)) == if seed_needed(
            mode,
            destination_exists,
            bundled_exists,
        ) {
            1nat
        } else {
            0nat
        },
        seed_needed(mode, destination_exists, bundled_exists) ==> preparation_steps(
            mode,
            env,
            destination_exists,
            bundled_exists,
        ).last() == (PreparationView::CopyFile {
            from: BUNDLED_CONFIG@,
            to: user_config_path(env),
        }),
{
    let steps = preparation_steps(mode, env, destination_exists, bundled_exists);
    reveal_with_fuel(copies, 3);
    if steps.len() == 2 {
        assert(steps.drop_last().drop_last().len() == 0);
    } else if steps.len() == 1 {
        assert(steps.drop_last().len() == 0);
    }
}

/// The first sandboxed run, with no configuration of the user's on disk,
/// copies the bundled one exactly once.
pub proof fn lemma_first_run_copies_once(env: EnvironmentView)
    ensures
        copies(preparation_steps(LaunchMode::Sandboxed, env, false, true)) == 1,
{
    lemma_copies_when_needed(LaunchMode::Sandboxed, env, false, true);
}

/// A configuration that is already in place is never overwritten.
pub proof fn lemma_existing_config_is_kept(
    mode: LaunchMode,
    env: EnvironmentView,
    bundled_exists: bool,
)
    ensures
        copies(preparation_steps(mode, env, true, bundled_exists)) == 0,
{
    lemma_copies_when_needed(mode, env, true, bundled_exists);
}

/// Preparation is idempotent: once the steps of one plan are done, so that
/// the destination exists if it did before or was copied, the plan of the
/// next run copies nothing.
pub proof fn lemma_second_run_copies_nothing(
    mode: LaunchMode,
    env: EnvironmentView,
    destination_exists: bool,
    bundled_exists: bool,
)
    ensures
        ({
            let first = preparation_steps(mode, env, destination_exists, bundled_exists);
            let exists_afterwards = destination_exists || copies(first) > 0;
            copies(preparation_steps(mode, env, exists_afterwards, bundled_exists)) == 0
        }),
{
    let first = preparation_steps(mode, env, destination_exists, bundled_exists);
    let exists_afterwards = destination_exists || copies(first) > 0;
    lemma_copies_when_needed(mode, env, destination_exists, bundled_exists);
    lemma_copies_when_needed(mode, env, exists_afterwards, bundled_exists);
}

/// The per-user configuration file for `env`.
pub fn config_destination(env: &Environment) -> (path: String)
    ensures
        path@ == user_config_path(env@),
{
    env.data_dir().concat(CONFIG_FILE_SUFFIX)
}

/// Plans the filesystem steps that precede the launch.
///
/// `destination_exists` says whether the file named by
/// [`config_destination`] exists, `bundled_exists` whether
/// [`BUNDLED_CONFIG`] does. Both are consulted only inside the sandbox.
pub fn plan_preparation(
    server_already_running: bool,
    env: &Environment,
    destination_exists: bool,
    bundled_exists: bool,
) -> (steps: Vec<Preparation>)
    ensures
        steps.deep_view() == preparation_steps(
            launch_mode(server_already_running, env@.is_sandboxed()),
            env@,
            destination_exists,
            bundled_exists,
        ),
{
    let mode = select_mode(server_already_running, env.is_sandboxed());
    let mut steps: Vec<Preparation> = Vec::new();
    match mode {
        LaunchMode::Sandboxed => {
            steps.push(Preparation::CreateDir { path: env.data_dir() });
            if !destination_exists && bundled_exists {
                steps.push(
                    Preparation::CopyFile {
                        from: String::from_str(BUNDLED_CONFIG),
                        to: config_destination(env),
                    },
                );
            }
        },
        LaunchMode::External | LaunchMode::Normal => {},
    }
    assert(steps.deep_view() =~= preparation_steps(
        mode,
        env@,
        destination_exists,
        bundled_exists,
    ));
    steps
}

} // verus!
