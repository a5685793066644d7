//! The supervisor: owner of at most one backend child handle, and the
//! decisions of `start` around the launch itself.
use vstd::prelude::*;
use crate::platform::{backend_addr, BuildMode};
use crate::resolve::path_view;

verus! {

/// Why a start failed.
#[derive(Debug)]
pub enum StartError {
    /// The working directory or the application's own location could not be had.
    PathResolutionImpossible { reason: String },
    /// Nothing exists at the resolved backend path.
    BackendNotFound { path: Vec<String> },
    /// The OS refused to create the process.
    SpawnFailed { reason: String },
}

/// Where the child's standard output and error go.
#[derive(Clone, Copy, Debug, PartialEq, Eq, Structural)]
pub enum OutputMode {
    /// Shared with the shell's own streams.
    Inherit,
    /// Discarded.
    Discard,
}

/// Everything the launch of the backend needs besides the OS.
#[derive(Debug)]
pub struct LaunchPlan {
    /// The executable, as path segments.
    pub program: Vec<String>,
    /// Environment variables set on the child, in order.
    pub env: Vec<(&'static str, &'static str)>,
    pub output: OutputMode,
}

pub open spec fn env_view(env: Seq<(&'static str, &'static str)>) -> Seq<(Seq<char>, Seq<char>)> {
    env.map_values(|kv: (&'static str, &'static str)| (kv.0@, kv.1@))
}

/// The child's environment: the bind address always, the development flag in
/// development builds only.
pub open spec fn spec_launch_env(mode: BuildMode) -> Seq<(Seq<char>, Seq<char>)> {
    if mode == BuildMode::Development {
        seq![("NEBULA_ADDR"@, "127.0.0.1:8080"@), ("NEBULA_DEV"@, "true"@)]
    } else {
        seq![("NEBULA_ADDR"@, "127.0.0.1:8080"@)]
    }
}

pub open spec fn spec_output_mode(mode: BuildMode) -> OutputMode {
    if mode == BuildMode::Development {
        OutputMode::Inherit
    } else {
        OutputMode::Discard
    }
}

/// The launch of the backend at `path`, given whether a file exists there:
/// `BackendNotFound` carrying the path when none does, else the plan with the
/// environment and output routing of `mode`.
pub fn prepare_launch(mode: BuildMode, path: Vec<String>, exists: bool) -> (r: Result<LaunchPlan, StartError>)
    ensures
        r is Ok <==> exists,
        !exists ==> (r matches Err(StartError::BackendNotFound { path: p }) && path_view(p@) == path_view(path@)),
        r matches Ok(plan) ==> {
            &&& path_view(plan.program@) == path_view(path@)
            &&& env_view(plan.env@) == spec_launch_env(mode)
            &&& plan.output == spec_output_mode(mode)
        },
{
    if !exists {
        return Err(StartError::BackendNotFound { path });
    }
    let mut env: Vec<(&'static str, &'static str)> = Vec::new();
    env.push(("NEBULA_ADDR", backend_addr()));
    let output = if mode == BuildMode::Development {
        env.push(("NEBULA_DEV", "true"));
        OutputMode::Inherit
    } else {
        OutputMode::Discard
    };
    proof {
        assert(env_view(env@) =~= spec_launch_env(mode));
    }
    Ok(LaunchPlan { program: path, env, output })
}

/// Holder of the backend child handle; `H` is the handle type of the host.
pub struct Supervisor<H> {
    handle: Option<H>,
}

impl<H> Supervisor<H> {
    /// The child handle held, if any.
    pub closed spec fn held(&self) -> Option<H> {
        self.handle
    }

    /// A supervisor that holds no child.
    pub fn new() -> (r: Self)
        ensures
            r.held() is None,
    {
        Supervisor { handle: None }
    }

    /// Whether a child is held.
    pub fn is_running(&self) -> (r: bool)
        ensures
            r == self.held() is Some,
    {
        self.handle.is_some()
    }

    /// Whether `start` has to launch a child: not while one is held, so that a
    /// second start is a success that launches nothing.
    pub fn needs_launch(&self) -> (r: bool)
        ensures
            r == self.held() is None,
    {
        self.handle.is_none()
    }

    /// Records the outcome of a launch made while no child was held: the
    /// spawned handle is kept, a refusal becomes `SpawnFailed`.
    pub fn record_launch(&mut self, spawned: Result<H, String>) -> (r: Result<(), StartError>)
        requires
            old(self).held() is None,
        ensures
            (final(self).held(), r) == spec_start(old(self).held(), spawned),
    {
        match spawned {
            Ok(h) => {
                self.handle = Some(h);
                Ok(())
            },
            Err(reason) => Err(StartError::SpawnFailed { reason }),
        }
    }

    /// Takes the held child out for stopping, leaving the supervisor empty
    /// whatever the stop then does; `None` when there is nothing to stop.
    pub fn take_handle(&mut self) -> (r: Option<H>)
        ensures
            (final(self).held(), r) == spec_take(old(self).held()),
    {
        self.handle.take()
    }
}

/// The handle held after a launch with this outcome.
pub open spec fn spec_held_after_launch<H>(spawned: Result<H, String>) -> Option<H> {
    match spawned {
        Ok(h) => Some(h),
        Err(_) => None,
    }
}

/// What `start` returns after a launch with this outcome.
pub open spec fn spec_start_result<H>(spawned: Result<H, String>) -> Result<(), StartError> {
    match spawned {
        Ok(_) => Ok(()),
        Err(reason) => Err(StartError::SpawnFailed { reason }),
    }
}

/// A whole start from the held handle `held`, where `spawned` is what a launch
/// would give: nothing changes while a child is held, else the launch outcome
/// is recorded. The new held handle, and the result.
pub open spec fn spec_start<H>(held: Option<H>, spawned: Result<H, String>) -> (Option<H>, Result<(), StartError>) {
    if held is Some {
        (held, Ok(()))
    } else {
        (spec_held_after_launch(spawned), spec_start_result(spawned))
    }
}

/// Starting twice with no stop between: once the first start succeeded, the
/// second one succeeds too and leaves exactly the first child held, whatever a
/// second launch would have given.
pub proof fn lemma_start_idempotent<H>(held: Option<H>, first: Result<H, String>, second: Result<H, String>)
    requires
        spec_start(held, first).1 is Ok,
    ensures
        spec_start(held, first).0 is Some,
        spec_start(spec_start(held, first).0, second) == (spec_start(held, first).0, Ok::<(), StartError>(())),
{
}

/// The held handle after a stop's take, and what the take hands out.
pub open spec fn spec_take<H>(held: Option<H>) -> (Option<H>, Option<H>) {
    (None, held)
}

/// Stopping twice in a row: the second take finds nothing, so no process is
/// signalled a second time, and the supervisor stays empty.
pub proof fn lemma_stop_twice<H>(held: Option<H>)
    ensures
        spec_take(spec_take(held).0).1 is None,
        spec_take(spec_take(held).0).0 is None,
{
}

} // verus!
