//! One run from request to plan: resolve the artifacts, list the pack
//! sources, and lay out the staging steps, the launch settings and the log to
//! read. Nothing is fetched or written before a plan exists.

use vstd::prelude::*;

use crate::artifacts::{
    opt_view, resolved_url, ArtifactLocation, ArtifactRole, VersionTable, DEFAULT_VERSION,
};
use crate::layout::LOG_FILE;
use crate::outcome::EvalError;
use crate::packs::{pack_sources, sources_of, InvalidPackPath, PackCopy, PackSource};
use crate::provision::{is_provision_plan, provision_steps, Step};

verus! {

/// The JVM argument that puts the test runner in automatic mode.
pub const AUTO_TEST_ARG: &'static str = "-Dpacktest.auto";

/// What the caller asked for.
#[derive(Clone, Debug)]
pub struct RunRequest {
    /// The game version.
    pub version: String,
    /// An explicit test-runner URL, or the sentinel, or nothing.
    pub packtest_url: Option<String>,
    /// An explicit Fabric API URL, or the sentinel, or nothing.
    pub fabric_api_url: Option<String>,
    /// The pack arguments.
    pub packs: Vec<String>,
    /// Split the first pack argument at commas instead of matching patterns.
    pub comma_separate: bool,
    /// Group console output for CI logs.
    pub github: bool,
}

impl RunRequest {
    /// A request; without a version the default version is used.
    pub fn new(
        version: Option<String>,
        packtest_url: Option<String>,
        fabric_api_url: Option<String>,
        packs: Vec<String>,
        comma_separate: bool,
        github: bool,
    ) -> (r: RunRequest)
        ensures
            r.version@ == (match version {
                Some(v) => v@,
                None => DEFAULT_VERSION@,
            }),
            opt_view(r.packtest_url) == opt_view(packtest_url),
            opt_view(r.fabric_api_url) == opt_view(fabric_api_url),
            r.packs@ == packs@,
            r.comma_separate == comma_separate,
            r.github == github,
    {
        let version = match version {
            Some(v) => v,
            None => String::from_str(DEFAULT_VERSION),
        };
        RunRequest { version, packtest_url, fabric_api_url, packs, comma_separate, github }
    }
}

/// Why a run stopped before it had an outcome.
#[derive(Clone, Debug)]
pub enum RunError {
    /// No URL is known for the artifact at this version and none was given.
    UnsupportedVersion { role: ArtifactRole },
    /// List mode was asked for without a pack argument.
    MissingPackList,
    /// A directory of the instance could not be created.
    DirectoryCreateFailed { path: String },
    /// An artifact could not be fetched or stored.
    DownloadFailed { role: ArtifactRole },
    /// A pack pattern could not be expanded.
    PatternFailed { pattern: String },
    /// A pack path has no base name.
    InvalidPackPath { path: String },
    /// A pack could not be copied into the world.
    PackCopyFailed { source: String },
    /// The server configuration could not be written.
    ConfigWriteFailed,
    /// The mod loader could not be installed.
    InstallFailed,
    /// The server could not be started.
    LaunchFailed,
    /// The server's exit status could not be obtained.
    ProcessWaitFailed,
    /// The server's log could not be read.
    LogUnreadable,
}

impl RunError {
    pub fn from_eval(e: EvalError) -> (r: RunError)
        ensures
            e == EvalError::ProcessWaitFailed ==> r is ProcessWaitFailed,
            e == EvalError::LogUnreadable ==> r is LogUnreadable,
    {
        match e {
            EvalError::ProcessWaitFailed => RunError::ProcessWaitFailed,
            EvalError::LogUnreadable => RunError::LogUnreadable,
        }
    }

    pub fn from_invalid_path(e: InvalidPackPath) -> (r: RunError)
        ensures
            r matches RunError::InvalidPackPath { path } && path@ == e.path@,
    {
        RunError::InvalidPackPath { path: e.path }
    }

    /// The error of a pack copy that failed.
    pub fn copy_failed(c: &PackCopy) -> (r: RunError)
        ensures
            r matches RunError::PackCopyFailed { source } && source@ == c.source@,
    {
        RunError::PackCopyFailed { source: c.source.clone() }
    }
}

/// The error that a step reports when its own work fails.
pub open spec fn step_failure_spec(s: Step, e: RunError) -> bool {
    match s {
        Step::EnsureDir { path } => e matches RunError::DirectoryCreateFailed { path: p } && p@
            == path@,
        Step::Download { role, .. } => e matches RunError::DownloadFailed { role: r } && r == role,
        Step::CopyPacks { source } => e matches RunError::PatternFailed { pattern } && pattern@
            == source.text(),
        Step::WriteFile { .. } => e is ConfigWriteFailed,
    }
}

/// The error for a step whose work failed, naming what failed.
pub fn step_failure(s: &Step) -> (r: RunError)
    ensures
        step_failure_spec(*s, r),
{
    match s {
        Step::EnsureDir { path } => RunError::DirectoryCreateFailed { path: path.clone() },
        Step::Download { role, .. } => RunError::DownloadFailed { role: *role },
        Step::CopyPacks { source } => {
            let pattern = match source {
                PackSource::Pattern(p) => p.clone(),
                PackSource::Literal(p) => p.clone(),
            };
            RunError::PatternFailed { pattern }
        },
        Step::WriteFile { .. } => RunError::ConfigWriteFailed,
    }
}

/// The side of the game that is installed and run.
#[derive(Clone, Copy, Debug, PartialEq, Eq, Structural)]
pub enum GameSide {
    Client,
    Server,
}

/// The mod loader that is installed.
#[derive(Clone, Copy, Debug, PartialEq, Eq, Structural)]
pub enum LoaderFlavor {
    Fabric,
    Quilt,
}

/// How the server instance is installed and started.
#[derive(Clone, Debug)]
pub struct LaunchSettings {
    pub loader: LoaderFlavor,
    pub side: GameSide,
    /// Accept the end-user license on the server's behalf.
    pub accept_eula: bool,
    pub show_gui: bool,
    pub jvm_args: Vec<String>,
    /// Start from a jar of its own rather than from the loader's main class.
    pub explicit_jar: bool,
}

pub open spec fn is_test_launch(l: LaunchSettings) -> bool {
    &&& l.loader == LoaderFlavor::Fabric
    &&& l.side == GameSide::Server
    &&& l.accept_eula
    &&& !l.show_gui
    &&& l.jvm_args@.len() == 1
    &&& l.jvm_args@[0]@ == AUTO_TEST_ARG@
    &&& !l.explicit_jar
}

/// A headless Fabric server that accepts the license and runs the tests on
/// its own.
pub fn launch_settings() -> (r: LaunchSettings)
    ensures
        is_test_launch(r),
{
    let mut jvm_args: Vec<String> = Vec::new();
    jvm_args.push(String::from_str(AUTO_TEST_ARG));
    LaunchSettings {
        loader: LoaderFlavor::Fabric,
        side: GameSide::Server,
        accept_eula: true,
        show_gui: false,
        jvm_args,
        explicit_jar: false,
    }
}

/// Everything a run does, in order.
#[derive(Clone, Debug)]
pub struct RunPlan {
    pub version: String,
    pub packtest: ArtifactLocation,
    pub fabric_api: ArtifactLocation,
    pub sources: Vec<PackSource>,
    pub steps: Vec<Step>,
    pub launch: LaunchSettings,
    /// The log that decides the outcome, relative to the instance root.
    pub log_file: String,
    pub github: bool,
}

pub open spec fn pack_views(packs: Seq<String>) -> Seq<Seq<char>> {
    packs.map_values(|p: String| p@)
}

/// Plans a run. Fails, before anything is fetched or written, when an
/// artifact has no URL (the test-runner mod is checked first) or when list
/// mode has no pack argument.
pub fn plan_run(req: &RunRequest, table: &VersionTable) -> (r: Result<RunPlan, RunError>)
    ensures
        ({
            let a = resolved_url(
                table.entries@,
                req.version@,
                ArtifactRole::PackTest,
                opt_view(req.packtest_url),
            );
            let b = resolved_url(
                table.entries@,
                req.version@,
                ArtifactRole::FabricApi,
                opt_view(req.fabric_api_url),
            );
            if a is None {
                r matches Err(RunError::UnsupportedVersion { role }) && role
                    == ArtifactRole::PackTest
            } else if b is None {
                r matches Err(RunError::UnsupportedVersion { role }) && role
                    == ArtifactRole::FabricApi
            } else if req.comma_separate && req.packs@.len() == 0 {
                r matches Err(RunError::MissingPackList)
            } else {
                r matches Ok(p) && {
                    &&& p.version@ == req.version@
                    &&& p.packtest.role == ArtifactRole::PackTest
                    &&& p.fabric_api.role == ArtifactRole::FabricApi
                    &&& a == Some(p.packtest.url@)
                    &&& b == Some(p.fabric_api.url@)
                    &&& sources_of(pack_views(req.packs@), req.comma_separate, p.sources@)
                    &&& is_provision_plan(p.packtest, p.fabric_api, p.sources@, p.steps@)
                    &&& is_test_launch(p.launch)
                    &&& p.log_file@ == LOG_FILE@
                    &&& p.github == req.github
                }
            }
        }),
{
    let resolved = table.resolve(
        req.version.as_str(),
        req.packtest_url.clone(),
        req.fabric_api_url.clone(),
    );
    let (packtest, fabric_api) = match resolved {
        Ok(pair) => pair,
        Err(e) => {
            return Err(RunError::UnsupportedVersion { role: e.role });
        },
    };
    let sources = match pack_sources(&req.packs, req.comma_separate) {
        Ok(s) => s,
        Err(_) => {
            return Err(RunError::MissingPackList);
        },
    };
    let steps = provision_steps(&packtest, &fabric_api, &sources);
    Ok(
        RunPlan {
            version: req.version.clone(),
            packtest,
            fabric_api,
            sources,
            steps,
            launch: launch_settings(),
            log_file: String::from_str(LOG_FILE),
            github: req.github,
        },
    )
}

} // verus!
