//! What to start and whether it can be started.
use vstd::prelude::*;
use crate::paths::{Platform, join, joined};

verus! {

pub open spec fn python_dir_name() -> Seq<char> {
    "python"@
}

pub open spec fn backend_dir_name() -> Seq<char> {
    "backend"@
}

pub open spec fn entry_script_name() -> Seq<char> {
    "main.py"@
}

/// File name of the interpreter executable on `platform`.
pub open spec fn interpreter_name(platform: Platform) -> Seq<char> {
    match platform {
        Platform::Windows => "python.exe"@,
        Platform::Unix => "python3"@,
    }
}

/// The paths a launch uses: the interpreter, the entry script handed to it as
/// its only argument, and the working directory of the child.
#[derive(Clone, Debug)]
pub struct LaunchPlan {
    pub interpreter: String,
    pub script: String,
    pub working_dir: String,
}

pub open spec fn plan_of(platform: Platform, resource_dir: Seq<char>) -> (Seq<char>, Seq<char>, Seq<char>) {
    let python = joined(platform, resource_dir, python_dir_name());
    let backend = joined(platform, resource_dir, backend_dir_name());
    (
        joined(platform, python, interpreter_name(platform)),
        joined(platform, backend, entry_script_name()),
        backend,
    )
}

/// Whether each path of a plan was found on disk.
#[derive(Clone, Copy, Debug, PartialEq, Eq, Structural)]
pub struct LaunchProbe {
    pub interpreter_exists: bool,
    pub script_exists: bool,
    pub working_dir_exists: bool,
}

/// Why the backend was not started.
#[derive(Clone, Debug, PartialEq, Eq)]
pub enum LaunchError {
    /// The interpreter executable is missing at this path.
    MissingInterpreter(String),
    /// The backend entry script is missing at this path.
    MissingScript(String),
    /// The backend working directory is missing at this path.
    MissingWorkingDir(String),
    /// The operating system refused to create the process, for this reason.
    SpawnFailed(String),
}

pub open spec fn error_prefix(e: LaunchError) -> Seq<char> {
    match e {
        LaunchError::MissingInterpreter(_) => "Python 解释器不存在: "@,
        LaunchError::MissingScript(_) => "后端主文件不存在: "@,
        LaunchError::MissingWorkingDir(_) => "后端目录不存在: "@,
        LaunchError::SpawnFailed(_) => "无法启动 Python 进程: "@,
    }
}

pub open spec fn error_detail(e: LaunchError) -> Seq<char> {
    match e {
        LaunchError::MissingInterpreter(p) => p@,
        LaunchError::MissingScript(p) => p@,
        LaunchError::MissingWorkingDir(p) => p@,
        LaunchError::SpawnFailed(m) => m@,
    }
}

impl LaunchError {
    /// A message for the operator.
    pub fn message(&self) -> (r: String)
        ensures
            r@ == error_prefix(*self) + error_detail(*self),
    {
        match self {
            LaunchError::MissingInterpreter(p) => String::from_str("Python 解释器不存在: ").concat(
                p.as_str(),
            ),
            LaunchError::MissingScript(p) => String::from_str("后端主文件不存在: ").concat(
                p.as_str(),
            ),
            LaunchError::MissingWorkingDir(p) => String::from_str("后端目录不存在: ").concat(
                p.as_str(),
            ),
            LaunchError::SpawnFailed(m) => String::from_str("无法启动 Python 进程: ").concat(
                m.as_str(),
            ),
        }
    }
}

/// The paths that launching from `resource_dir` uses on `platform`.
pub fn plan_launch(platform: Platform, resource_dir: &str) -> (r: LaunchPlan)
    ensures
        (r.interpreter@, r.script@, r.working_dir@) == plan_of(platform, resource_dir@),
{
    let python = join(platform, resource_dir, "python");
    let backend = join(platform, resource_dir, "backend");
    let interpreter = match platform {
        Platform::Windows => join(platform, python.as_str(), "python.exe"),
        Platform::Unix => join(platform, python.as_str(), "python3"),
    };
    let script = join(platform, backend.as_str(), "main.py");
    LaunchPlan { interpreter, script, working_dir: backend }
}

/// The outcome of the checks made before spawning: each missing path gives
/// its own error, the interpreter checked first, then the entry script, then
/// the working directory.
pub open spec fn check_outcome(plan: LaunchPlan, probe: LaunchProbe) -> Result<(), LaunchError> {
    if !probe.interpreter_exists {
        Err(LaunchError::MissingInterpreter(plan.interpreter))
    } else if !probe.script_exists {
        Err(LaunchError::MissingScript(plan.script))
    } else if !probe.working_dir_exists {
        Err(LaunchError::MissingWorkingDir(plan.working_dir))
    } else {
        Ok(())
    }
}

/// Checks that everything a launch needs is in place.
pub fn check_launch(plan: &LaunchPlan, probe: &LaunchProbe) -> (r: Result<(), LaunchError>)
    ensures
        r == check_outcome(*plan, *probe),
{
    if !probe.interpreter_exists {
        Err(LaunchError::MissingInterpreter(plan.interpreter.clone()))
    } else if !probe.script_exists {
        Err(LaunchError::MissingScript(plan.script.clone()))
    } else if !probe.working_dir_exists {
        Err(LaunchError::MissingWorkingDir(plan.working_dir.clone()))
    } else {
        Ok(())
    }
}

} // verus!
