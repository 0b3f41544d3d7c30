//! A snapshot of the environment variables that steer the launch.
//!
//! The caller reads the four variables once at startup and hands them over
//! as plain values. Everything derived from them is computed here, so no
//! later decision has to consult the process environment again.

use vstd::prelude::*;
use vstd::string::StringExecFns;

verus! {

/// Name of the variable that holds the user's home directory.
pub const HOME_VAR: &'static str = "HOME";

/// Name of the variable that holds the installation root of the runtime.
pub const INSTALL_ROOT_VAR: &'static str = "BUN_INSTALL";

/// Name of the variable whose presence identifies a sandboxed runtime.
pub const SANDBOX_ID_VAR: &'static str = "FLATPAK_ID";

/// Name of the variable that overrides the source directory of the server.
pub const SOURCE_DIR_VAR: &'static str = "PORTFOLIO60_DIR";

/// Home directory assumed when the environment names none.
pub const FALLBACK_HOME: &'static str = "/home/rcollins";

/// Where the per-user data directory lies below the home directory.
pub const DATA_DIR_SUFFIX: &'static str = "/.config/portfolio_60";

/// Where the server's sources conventionally lie below the home directory.
pub const SOURCE_DIR_SUFFIX: &'static str = "/code/portfolio_60";

/// What the process environment said at startup.
///
/// A field is `None` when its variable is unset or does not hold valid
/// Unicode; a variable set to the empty string is `Some` of an empty string.
pub struct Environment {
    /// Value of [`HOME_VAR`].
    pub home: Option<String>,
    /// Value of [`INSTALL_ROOT_VAR`].
    pub install_root: Option<String>,
    /// Value of [`SANDBOX_ID_VAR`].
    pub sandbox_id: Option<String>,
    /// Value of [`SOURCE_DIR_VAR`].
    pub source_dir: Option<String>,
}

/// Mathematical model of an [`Environment`]: each value as a sequence of
/// characters.
pub struct EnvironmentView {
    pub home: Option<Seq<char>>,
    pub install_root: Option<Seq<char>>,
    pub sandbox_id: Option<Seq<char>>,
    pub source_dir: Option<Seq<char>>,
}

impl View for Environment {
    type V = EnvironmentView;

    open spec fn view(&self) -> EnvironmentView {
        EnvironmentView {
            home: self.home.deep_view(),
            install_root: self.install_root.deep_view(),
            sandbox_id: self.sandbox_id.deep_view(),
            source_dir: self.source_dir.deep_view(),
        }
    }
}

impl EnvironmentView {
    /// The home directory, or the fallback when the variable is not set.
    pub open spec fn home_dir(self) -> Seq<char> {
        match self.home {
            Some(home) => home,
            None => FALLBACK_HOME@,
        }
    }

    /// The per-user writable data directory, always below the home
    /// directory. A sandboxed server keeps its data there.
    pub open spec fn data_dir(self) -> Seq<char> {
        self.home_dir() + DATA_DIR_SUFFIX@
    }

    /// The directory that holds the server's sources outside a sandbox: the
    /// override when set, else the conventional place below the home
    /// directory.
    pub open spec fn source_dir(self) -> Seq<char> {
        match self.source_dir {
            Some(dir) => dir,
            None => self.home_dir() + SOURCE_DIR_SUFFIX@,
        }
    }

    /// Whether the sandbox-identity variable is set, to any value.
    pub open spec fn is_sandboxed(self) -> bool {
        self.sandbox_id is Some
    }
}

impl Environment {
    /// The home directory, or [`FALLBACK_HOME`] when the variable is not set.
    pub fn home_dir(&self) -> (dir: String)
        ensures
            dir@ == self@.home_dir(),
    {
        match &self.home {
            Some(home) => home.clone(),
            None => String::from_str(FALLBACK_HOME),
        }
    }

    /// The per-user writable data directory.
    pub fn data_dir(&self) -> (dir: String)
        ensures
            dir@ == self@.data_dir(),
    {
        self.home_dir().concat(DATA_DIR_SUFFIX)
    }

    /// The source directory used outside a sandbox.
    pub fn source_dir(&self) -> (dir: String)
        ensures
            dir@ == self@.source_dir(),
    {
        match &self.source_dir {
            Some(dir) => dir.clone(),
            None => self.home_dir().concat(SOURCE_DIR_SUFFIX),
        }
    }

    /// Whether the process runs inside the sandboxed packaging.
    pub fn is_sandboxed(&self) -> (sandboxed: bool)
        ensures
            sandboxed == self@.is_sandboxed(),
    {
        self.sandbox_id.is_some()
    }
}

} // verus!
