//! Types and response classification for the container engine's HTTP API.
//!
//! The engine is driven through five operations — create, start, kill, inspect,
//! remove — each an HTTP exchange performed outside this crate.  The functions
//! here map each exchange's status code onto the error taxonomy the scheduler
//! consumes.

use vstd::prelude::*;
use vstd::string::StringExecFns;
use crate::ravel::Submission;
use crate::text::{dec_int, i32_to_string};
use std::collections::HashMap;

verus! {

/// Creation options for a sandbox container, mirroring the engine's
/// PascalCase request body.
#[derive(Debug)]
pub struct ContainerOptions {
    pub image: String,
    pub host_config: HostConfig,
    pub tty: bool,
    pub attach_stdin: bool,
    pub attach_stdout: bool,
    pub attach_stderr: bool,
    pub open_stdin: bool,
    pub stdin_once: bool,
    pub network_disabled: bool,
    pub env: Option<Vec<String>>,
    pub volumes: Option<HashMap<String, HashMap<String, String>>>,
}

/// The host-side part of the creation options.
#[derive(Debug)]
pub struct HostConfig {
    pub binds: Option<Vec<String>>,
    pub auto_remove: bool,
}

/// The `State` sub-object of the engine's inspect response.
#[derive(Debug, Clone, Copy, PartialEq, Eq, Structural)]
pub struct ContainerState {
    pub exit_code: i32,
    pub running: bool,
}

/// The engine's inspect response, reduced to its `State`.
#[derive(Debug, Clone, Copy, PartialEq, Eq, Structural)]
pub struct Inspect {
    pub state: ContainerState,
}

/// The decoded body of a successful create response.
#[derive(Debug)]
pub struct CreateContainerSuccessResponse {
    pub id: String,
    pub _warnings: Vec<String>,
}

/// The decoded body of an engine error response.
#[derive(Debug)]
pub struct DockerApiError {
    pub message: String,
}

/// The error taxonomy of the five engine operations.
#[derive(Debug, Clone, Copy, PartialEq, Eq, Structural)]
pub enum DockerErrors {
    CreateContainerError,
    StartContainerError,
    ContainerAlreadyStarted,
    NoSuchContainer,
    IsNotRunning,
    KillContainerError,
    InspectContainerError,
    RemoveContainerError,
    CannotRemoveRunningContainer,
}

/// The message the daemon logs for each engine error.
pub open spec fn docker_error_message(e: DockerErrors) -> Seq<char> {
    match e {
        DockerErrors::CreateContainerError => "Error creating container"@,
        DockerErrors::StartContainerError => "Error starting container"@,
        DockerErrors::ContainerAlreadyStarted => "Container already started"@,
        DockerErrors::NoSuchContainer => "No such container"@,
        DockerErrors::IsNotRunning => "Container Is not running"@,
        DockerErrors::KillContainerError => "Unable to kill container"@,
        DockerErrors::InspectContainerError => "Error inspecting container"@,
        DockerErrors::RemoveContainerError => "Error removing container"@,
        DockerErrors::CannotRemoveRunningContainer => "Cannot remove a running contaienr"@,
    }
}

impl DockerErrors {
    /// The log message for this error.
    pub fn message(&self) -> (r: String)
        ensures
            r@ == docker_error_message(*self),
    {
        match self {
            Self::CreateContainerError => String::from_str("Error creating container"),
            Self::StartContainerError => String::from_str("Error starting container"),
            Self::ContainerAlreadyStarted => String::from_str("Container already started"),
            Self::NoSuchContainer => String::from_str("No such container"),
            Self::IsNotRunning => String::from_str("Container Is not running"),
            Self::KillContainerError => String::from_str("Unable to kill container"),
            Self::InspectContainerError => String::from_str("Error inspecting container"),
            Self::RemoveContainerError => String::from_str("Error removing container"),
            Self::CannotRemoveRunningContainer => String::from_str(
                "Cannot remove a running contaienr",
            ),
        }
    }
}

/// A 2xx status.
pub open spec fn is_success(status: u16) -> bool {
    200 <= status < 300
}

/// A 3xx status.
pub open spec fn is_redirection(status: u16) -> bool {
    300 <= status < 400
}

/// Classifies a create exchange: any non-2xx is a `CreateContainerError`; on a
/// 2xx the engine's body carries the new container's id.
pub fn classify_create(status: u16) -> (r: Result<(), DockerErrors>)
    ensures
        r is Ok <==> is_success(status),
        !is_success(status) ==> r == Err::<(), DockerErrors>(DockerErrors::CreateContainerError),
{
    if 200 <= status && status < 300 {
        Ok(())
    } else {
        Err(DockerErrors::CreateContainerError)
    }
}

/// Classifies a start exchange: 2xx started, 3xx already started, anything
/// else a `StartContainerError`.
pub fn classify_start(status: u16) -> (r: Result<(), DockerErrors>)
    ensures
        r is Ok <==> is_success(status),
        is_redirection(status) ==> r == Err::<(), DockerErrors>(
            DockerErrors::ContainerAlreadyStarted,
        ),
        !is_success(status) && !is_redirection(status) ==> r == Err::<(), DockerErrors>(
            DockerErrors::StartContainerError,
        ),
{
    if 200 <= status && status < 300 {
        Ok(())
    } else if 300 <= status && status < 400 {
        Err(DockerErrors::ContainerAlreadyStarted)
    } else {
        Err(DockerErrors::StartContainerError)
    }
}

/// Classifies a kill exchange: 2xx killed, 404 no such container, 409 not
/// running, anything else a `KillContainerError`.
pub fn classify_kill(status: u16) -> (r: Result<(), DockerErrors>)
    ensures
        r is Ok <==> is_success(status),
        status == 404 ==> r == Err::<(), DockerErrors>(DockerErrors::NoSuchContainer),
        status == 409 ==> r == Err::<(), DockerErrors>(DockerErrors::IsNotRunning),
        !is_success(status) && status != 404 && status != 409 ==> r == Err::<(), DockerErrors>(
            DockerErrors::KillContainerError,
        ),
{
    if 200 <= status && status < 300 {
        Ok(())
    } else if status == 404 {
        Err(DockerErrors::NoSuchContainer)
    } else if status == 409 {
        Err(DockerErrors::IsNotRunning)
    } else {
        Err(DockerErrors::KillContainerError)
    }
}

/// Classifies an inspect exchange: a 500 is an `InspectContainerError`; on any
/// other status the `State` sub-object of the body is decoded.
pub fn classify_inspect(status: u16) -> (r: Result<(), DockerErrors>)
    ensures
        r is Ok <==> status != 500,
        status == 500 ==> r == Err::<(), DockerErrors>(DockerErrors::InspectContainerError),
{
    if status == 500 {
        Err(DockerErrors::InspectContainerError)
    } else {
        Ok(())
    }
}

/// Classifies a remove exchange: 2xx removed, 400 a `RemoveContainerError`,
/// 404 no such container, 409 still running, anything else a
/// `RemoveContainerError`.
pub fn classify_remove(status: u16) -> (r: Result<(), DockerErrors>)
    ensures
        r is Ok <==> is_success(status),
        status == 400 ==> r == Err::<(), DockerErrors>(DockerErrors::RemoveContainerError),
        status == 404 ==> r == Err::<(), DockerErrors>(DockerErrors::NoSuchContainer),
        status == 409 ==> r == Err::<(), DockerErrors>(
            DockerErrors::CannotRemoveRunningContainer,
        ),
        !is_success(status) && status != 400 && status != 404 && status != 409 ==> r == Err::<
            (),
            DockerErrors,
        >(DockerErrors::RemoveContainerError),
{
    if 200 <= status && status < 300 {
        Ok(())
    } else if status == 400 {
        Err(DockerErrors::RemoveContainerError)
    } else if status == 404 {
        Err(DockerErrors::NoSuchContainer)
    } else if status == 409 {
        Err(DockerErrors::CannotRemoveRunningContainer)
    } else {
        Err(DockerErrors::RemoveContainerError)
    }
}

/// The name of the sandbox container for a submission id.
pub open spec fn container_name_spec(id: int) -> Seq<char> {
    "reverie_"@ + dec_int(id)
}

/// Builds the sandbox container's name, `reverie_<id>`.
pub fn container_name(id: i32) -> (r: String)
    ensures
        r@ == container_name_spec(id as int),
{
    let mut s = String::from_str("reverie_");
    let digits = i32_to_string(id);
    s.append(digits.as_str());
    s
}

/// The single bind mount handed to the engine: the job's workspace mapped to
/// the sandbox's working directory.
pub open spec fn bind_mount_spec(cwd: Seq<char>, id: int) -> Seq<char> {
    cwd + "/jobs/"@ + dec_int(id) + ":/usr/src/debussy"@
}

/// Builds the bind mount `<cwd>/jobs/<id>:/usr/src/debussy`.
pub fn bind_mount(cwd: &str, id: i32) -> (r: String)
    ensures
        r@ == bind_mount_spec(cwd@, id as int),
{
    let mut s = String::from_str(cwd);
    s.append("/jobs/");
    let digits = i32_to_string(id);
    s.append(digits.as_str());
    s.append(":/usr/src/debussy");
    proof {
        assert(s@ =~= bind_mount_spec(cwd@, id as int));
    }
    s
}

/// The environment handed to the sandbox: its per-test timeout.
pub open spec fn timeout_env_spec(timeout: int) -> Seq<char> {
    "TIMEOUT="@ + dec_int(timeout)
}

/// Builds the environment entry `TIMEOUT=<seconds>`.
pub fn timeout_env(timeout: i32) -> (r: String)
    ensures
        r@ == timeout_env_spec(timeout as int),
{
    let mut s = String::from_str("TIMEOUT=");
    let digits = i32_to_string(timeout);
    s.append(digits.as_str());
    s
}

/// Builds the creation options for a submission's sandbox: the judging image,
/// one bind mount of the job workspace, stdio attached, network disabled, and
/// the submission's timeout in the environment.
pub fn sandbox_options(cwd: &str, submission: &Submission) -> (r: ContainerOptions)
    ensures
        r.image@ == "reverie_test:latest"@,
        (r.host_config.binds matches Some(binds) && binds@.len() == 1 && binds@[0]@
            == bind_mount_spec(cwd@, submission.id as int)),
        r.host_config.auto_remove == false,
        r.tty && r.attach_stdin && r.attach_stdout && r.attach_stderr && r.open_stdin,
        r.stdin_once == false,
        r.network_disabled,
        (r.env matches Some(env) && env@.len() == 1 && env@[0]@ == timeout_env_spec(
            submission.timeout as int,
        )),
        r.volumes is None,
{
    let mut binds: Vec<String> = Vec::new();
    binds.push(bind_mount(cwd, submission.id));
    let mut env: Vec<String> = Vec::new();
    env.push(timeout_env(submission.timeout));
    ContainerOptions {
        image: String::from_str("reverie_test:latest"),
        host_config: HostConfig { binds: Some(binds), auto_remove: false },
        tty: true,
        attach_stdin: true,
        attach_stdout: true,
        attach_stderr: true,
        open_stdin: true,
        stdin_once: false,
        network_disabled: true,
        env: Some(env),
        volumes: None,
    }
}

} // verus!
