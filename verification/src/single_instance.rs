//! Running one instance at a time: the names that mark a running build and
//! what the user is told when another build is already running.
use vstd::prelude::*;

verus! {

/// The name of the mutex that any running instance holds.
pub const INSTANCE_MUTEX_NAME: &'static str = "Local\\x360ce.RozsaZoltan.SingleInstance";

/// The name of the mutex a running development build holds.
pub const DEVELOPMENT_MUTEX_NAME: &'static str = "Local\\x360ce.RozsaZoltan.DevelopmentBuild";

/// The name of the mutex a running production build holds.
pub const PRODUCTION_MUTEX_NAME: &'static str = "Local\\x360ce.RozsaZoltan.ProductionBuild";

/// How many times the kind of an already running build is looked for.
pub const BUILD_DETECTION_RETRIES: usize = 10;

/// The kind of a build.
#[derive(Clone, Copy, Debug, Eq, PartialEq, Structural)]
pub enum BuildKind {
    Development,
    Production,
    Unknown,
}

/// The main window title of a build of the given version.
pub open spec fn build_window_title(kind: BuildKind, version: Seq<char>) -> Option<Seq<char>> {
    match kind {
        BuildKind::Development => Some("x360ce v"@ + version + "-dev"@),
        BuildKind::Production => Some("x360ce v"@ + version),
        BuildKind::Unknown => None,
    }
}

impl BuildKind {
    /// The kind of the running program.
    pub fn current(dev_build: bool) -> (r: BuildKind)
        ensures
            r == (if dev_build {
                BuildKind::Development
            } else {
                BuildKind::Production
            }),
    {
        if dev_build {
            BuildKind::Development
        } else {
            BuildKind::Production
        }
    }

    /// The mutex that marks a running build of this kind.
    pub fn mutex_name(self) -> (r: Option<&'static str>)
        ensures
            match self {
                BuildKind::Development => r == Some(DEVELOPMENT_MUTEX_NAME),
                BuildKind::Production => r == Some(PRODUCTION_MUTEX_NAME),
                BuildKind::Unknown => r is None,
            },
    {
        match self {
            BuildKind::Development => Some(DEVELOPMENT_MUTEX_NAME),
            BuildKind::Production => Some(PRODUCTION_MUTEX_NAME),
            BuildKind::Unknown => None,
        }
    }

    /// The main window title of a build of this kind at `version`.
    pub fn window_title(self, version: &str) -> (r: Option<String>)
        ensures
            match r {
                Some(t) => build_window_title(self, version@) == Some(t@),
                None => build_window_title(self, version@) is None,
            },
    {
        match self {
            BuildKind::Development => {
                let mut s = String::from_str("x360ce v");
                s.append(version);
                s.append("-dev");
                Some(s)
            },
            BuildKind::Production => {
                let mut s = String::from_str("x360ce v");
                s.append(version);
                Some(s)
            },
            BuildKind::Unknown => None,
        }
    }
}

/// The kind of the build that is already running, from whether a
/// development and a production build were seen: known only when exactly
/// one of them was.
pub fn classify_running_build(development: bool, production: bool) -> (r: Option<BuildKind>)
    ensures
        r == (if development && !production {
            Some(BuildKind::Development)
        } else if production && !development {
            Some(BuildKind::Production)
        } else {
            None
        }),
{
    if development && !production {
        Some(BuildKind::Development)
    } else if production && !development {
        Some(BuildKind::Production)
    } else {
        None
    }
}

/// What the user is told when `existing_build` runs while `current_build`
/// starts.
pub open spec fn running_message(existing_build: BuildKind, current_build: BuildKind) -> Seq<char> {
    match (existing_build, current_build) {
        (BuildKind::Development, BuildKind::Production) =>
            "A x360ce development build is already running.\n\nRight-click the x360ce tray icon and choose \"Quit x360ce\" before starting the production build."@,
        (BuildKind::Production, BuildKind::Development) =>
            "A x360ce production build is already running.\n\nRight-click the x360ce tray icon and choose \"Quit x360ce\" before starting the development build."@,
        (BuildKind::Development, BuildKind::Development) =>
            "x360ce development build is already running.\n\nRight-click the x360ce tray icon and choose \"Quit x360ce\" before starting it again."@,
        (BuildKind::Production, BuildKind::Production) =>
            "x360ce is already running.\n\nRight-click the x360ce tray icon and choose \"Quit x360ce\" before starting it again."@,
        _ =>
            "Another x360ce instance is already running.\n\nRight-click the x360ce tray icon and choose \"Quit x360ce\" before starting this build."@,
    }
}

pub fn already_running_message(existing_build: BuildKind, current_build: BuildKind) -> (r: &'static str)
    ensures
        r@ == running_message(existing_build, current_build),
{
    match (existing_build, current_build) {
        (BuildKind::Development, BuildKind::Production) => {
            "A x360ce development build is already running.\n\nRight-click the x360ce tray icon and choose \"Quit x360ce\" before starting the production build."
        },
        (BuildKind::Production, BuildKind::Development) => {
            "A x360ce production build is already running.\n\nRight-click the x360ce tray icon and choose \"Quit x360ce\" before starting the development build."
        },
        (BuildKind::Development, BuildKind::Development) => {
            "x360ce development build is already running.\n\nRight-click the x360ce tray icon and choose \"Quit x360ce\" before starting it again."
        },
        (BuildKind::Production, BuildKind::Production) => {
            "x360ce is already running.\n\nRight-click the x360ce tray icon and choose \"Quit x360ce\" before starting it again."
        },
        _ => {
            "Another x360ce instance is already running.\n\nRight-click the x360ce tray icon and choose \"Quit x360ce\" before starting this build."
        },
    }
}

} // verus!
