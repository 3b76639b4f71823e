//! The process supervisor's state machine.
//!
//! The supervisor tracks at most one child-process handle. The handle itself
//! and the lock that serializes access to it live in the embedding
//! application; this module is the model of that slot (`running`) together
//! with the decisions each operation makes. A start is planned by
//! [`BackendManager::start_backend`], which either reports the service as
//! already running, rejects the request, or hands back the exact command to
//! spawn; the application performs the spawn and records its outcome with
//! [`BackendManager::record_spawn_outcome`]. A stop clears the slot and says
//! whether a kill is owed.

use vstd::prelude::*;

use crate::text::u16_to_string;
use crate::text::spec_udec;

verus! {

/// The ways a supervisor operation can fail, each carrying its message.
#[derive(Debug)]
pub enum SupervisorError {
    /// No qualifying interpreter.
    Environment(String),
    /// A directory, entry file or manifest is missing.
    NotFound(String),
    /// The operating system failed to create the child process.
    Spawn(String),
    /// The operating system failed to kill the child process.
    Termination(String),
    /// Package installation failed.
    Install(String),
}

impl SupervisorError {
    /// The message carried by the error.
    pub open spec fn spec_message(&self) -> Seq<char> {
        match self {
            SupervisorError::Environment(m) => m@,
            SupervisorError::NotFound(m) => m@,
            SupervisorError::Spawn(m) => m@,
            SupervisorError::Termination(m) => m@,
            SupervisorError::Install(m) => m@,
        }
    }

    /// Return the message carried by the error.
    pub fn message(&self) -> (m: String)
        ensures
            m@ == self.spec_message(),
    {
        match self {
            SupervisorError::Environment(m) => m.clone(),
            SupervisorError::NotFound(m) => m.clone(),
            SupervisorError::Spawn(m) => m.clone(),
            SupervisorError::Termination(m) => m.clone(),
            SupervisorError::Install(m) => m.clone(),
        }
    }
}

/// Everything the application observed before a start: the resolved
/// interpreter command and whether it answered a version query, and whether
/// the working directory and its entry file exist, with the paths used in
/// messages and in the spawned command.
pub struct StartProbe {
    /// The resolved interpreter command (explicit override or detected).
    pub python_cmd: String,
    /// The interpreter answered a version query successfully.
    pub python_valid: bool,
    /// The working directory handed to the start request.
    pub backend_dir: String,
    /// That directory exists.
    pub dir_exists: bool,
    /// The path of the service entry file inside the working directory.
    pub script_path: String,
    /// That entry file exists.
    pub script_exists: bool,
    /// The parent of the working directory (or the directory itself when it
    /// has no parent), where the child is spawned.
    pub project_root: String,
}

/// The exact child process to create: program, arguments, environment
/// variables, and the directory to spawn in.
pub struct SpawnCommand {
    pub program: String,
    pub args: Vec<String>,
    pub env: Vec<(String, String)>,
    pub working_dir: String,
}

/// What a start decides.
pub enum StartStep {
    /// A child is already running; nothing is done.
    AlreadyRunning,
    /// The request is rejected before any side effect.
    Rejected(SupervisorError),
    /// Spawn this command, then record the outcome.
    Spawn(SpawnCommand),
}

/// The arguments of the spawned service: run the ASGI server module against
/// the service application, bound to the loopback host and the supervisor's
/// port.
pub open spec fn spec_spawn_args(port: u16) -> Seq<Seq<char>> {
    seq![
        "-m"@,
        "uvicorn"@,
        "backend.app_v2:app"@,
        "--host"@,
        "127.0.0.1"@,
        "--port"@,
        spec_udec(port as nat),
    ]
}

/// The environment handed to the spawned service: its port, a lazy-load
/// flag, and an unbuffered-output flag.
pub open spec fn spec_spawn_env(port: u16) -> Seq<(Seq<char>, Seq<char>)> {
    seq![
        ("CYBERSEED_BACKEND_PORT"@, spec_udec(port as nat)),
        ("CYBERSEED_LAZY_LOAD_MODELS"@, "true"@),
        ("PYTHONUNBUFFERED"@, "1"@),
    ]
}

pub open spec fn spec_msg_env_invalid(cmd: Seq<char>) -> Seq<char> {
    "Python executable not valid or not found: "@ + cmd
}

pub open spec fn spec_msg_dir_missing(dir: Seq<char>) -> Seq<char> {
    "Backend directory not found: "@ + dir
}

pub open spec fn spec_msg_script_missing(script: Seq<char>) -> Seq<char> {
    "Backend script not found: "@ + script
}

pub open spec fn spec_msg_started(port: u16, cmd: Seq<char>) -> Seq<char> {
    "Backend started on port "@ + spec_udec(port as nat) + " using Python: "@ + cmd
}

pub open spec fn spec_msg_spawn_failed(err: Seq<char>, cmd: Seq<char>, root: Seq<char>) -> Seq<
    char,
> {
    "Failed to start backend: "@ + err + ". Python path: "@ + cmd + ", Project root: "@ + root
}

pub open spec fn spec_msg_kill_failed(err: Seq<char>) -> Seq<char> {
    "Failed to kill backend process: "@ + err
}

/// A start plans a spawn exactly when no child is running and every probe
/// succeeded.
pub open spec fn spec_start_spawns(
    running: bool,
    python_valid: bool,
    dir_exists: bool,
    script_exists: bool,
) -> bool {
    !running && python_valid && dir_exists && script_exists
}

/// Whether a child is running after a start whose plan was `spawned` and
/// whose spawn, if any, ended with `spawn_ok`.
pub open spec fn spec_running_after_start(running: bool, spawned: bool, spawn_ok: bool) -> bool {
    running || (spawned && spawn_ok)
}

/// A stop kills exactly when a child is running.
pub open spec fn spec_stop_kills(running: bool) -> bool {
    running
}

/// A stop succeeds unless it owed a kill and the kill failed.
pub open spec fn spec_stop_ok(kills: bool, kill_ok: bool) -> bool {
    !kills || kill_ok
}

/// The step is a rejection with this `EnvironmentError` message.
pub open spec fn spec_is_env_rejection(step: StartStep, msg: Seq<char>) -> bool {
    match step {
        StartStep::Rejected(SupervisorError::Environment(m)) => m@ == msg,
        _ => false,
    }
}

/// The step is a rejection with this `NotFoundError` message.
pub open spec fn spec_is_not_found_rejection(step: StartStep, msg: Seq<char>) -> bool {
    match step {
        StartStep::Rejected(SupervisorError::NotFound(m)) => m@ == msg,
        _ => false,
    }
}

/// The step plans exactly this spawn.
pub open spec fn spec_is_spawn(
    step: StartStep,
    program: Seq<char>,
    working_dir: Seq<char>,
    port: u16,
) -> bool {
    match step {
        StartStep::Spawn(cmd) => {
            &&& cmd.program@ == program
            &&& cmd.working_dir@ == working_dir
            &&& cmd.args@.map_values(|a: String| a@) == spec_spawn_args(port)
            &&& cmd.env@.map_values(|e: (String, String)| (e.0@, e.1@)) == spec_spawn_env(port)
        },
        _ => false,
    }
}

/// The supervisor: the model of the child-handle slot and the fixed service
/// port. The embedding application pairs a value of this type with the
/// actual handle under one lock and keeps `running` equal to "a handle is
/// held".
pub struct BackendManager {
    /// A child-process handle is currently running.
    pub running: bool,
    /// The fixed port the service is told to bind.
    pub backend_port: u16,
}

impl BackendManager {
    /// A fresh supervisor for `port`, tracking nothing.
    pub fn new(port: u16) -> (m: BackendManager)
        ensures
            !m.running,
            m.backend_port == port,
    {
        BackendManager { running: false, backend_port: port }
    }

    /// Is a child currently running? A liveness proxy, not a health check: a
    /// child that exited on its own still reads as running.
    pub fn check_status(&self) -> (b: bool)
        ensures
            b == self.running,
    {
        self.running
    }

    /// The fixed service port.
    pub fn get_port(&self) -> (p: u16)
        ensures
            p == self.backend_port,
    {
        self.backend_port
    }

    /// The message a start reports when a child is already running.
    pub fn already_running_message() -> (m: String)
        ensures
            m@ == "Backend already running"@,
    {
        String::from_str("Backend already running")
    }

    /// Decide a start request from the probe results, without side effects:
    /// report "already running" when a child is running; otherwise reject
    /// with `EnvironmentError` when the interpreter is invalid, with
    /// `NotFoundError` when the directory or its entry file is missing; and
    /// otherwise plan the exact spawn command.
    pub fn start_backend(&self, probe: &StartProbe) -> (step: StartStep)
        ensures
            (step is AlreadyRunning) == self.running,
            (step is Spawn) == spec_start_spawns(
                self.running,
                probe.python_valid,
                probe.dir_exists,
                probe.script_exists,
            ),
            !self.running && !probe.python_valid ==> spec_is_env_rejection(
                step,
                spec_msg_env_invalid(probe.python_cmd@),
            ),
            !self.running && probe.python_valid && !probe.dir_exists ==> spec_is_not_found_rejection(
                step,
                spec_msg_dir_missing(probe.backend_dir@),
            ),
            !self.running && probe.python_valid && probe.dir_exists && !probe.script_exists
                ==> spec_is_not_found_rejection(step, spec_msg_script_missing(probe.script_path@)),
            spec_start_spawns(self.running, probe.python_valid, probe.dir_exists, probe.script_exists)
                ==> spec_is_spawn(step, probe.python_cmd@, probe.project_root@, self.backend_port),
    {
        if self.running {
            return StartStep::AlreadyRunning;
        }
        if !probe.python_valid {
            let mut m = String::from_str("Python executable not valid or not found: ");
            m.append(probe.python_cmd.as_str());
            return StartStep::Rejected(SupervisorError::Environment(m));
        }
        if !probe.dir_exists {
            let mut m = String::from_str("Backend directory not found: ");
            m.append(probe.backend_dir.as_str());
            return StartStep::Rejected(SupervisorError::NotFound(m));
        }
        if !probe.script_exists {
            let mut m = String::from_str("Backend script not found: ");
            m.append(probe.script_path.as_str());
            return StartStep::Rejected(SupervisorError::NotFound(m));
        }
        let port_text = u16_to_string(self.backend_port);
        let mut args: Vec<String> = Vec::new();
        args.push(String::from_str("-m"));
        args.push(String::from_str("uvicorn"));
        args.push(String::from_str("backend.app_v2:app"));
        args.push(String::from_str("--host"));
        args.push(String::from_str("127.0.0.1"));
        args.push(String::from_str("--port"));
        args.push(port_text.clone());
        let mut env: Vec<(String, String)> = Vec::new();
        env.push((String::from_str("CYBERSEED_BACKEND_PORT"), port_text));
        env.push((String::from_str("CYBERSEED_LAZY_LOAD_MODELS"), String::from_str("true")));
        env.push((String::from_str("PYTHONUNBUFFERED"), String::from_str("1")));
        proof {
            assert(args@.map_values(|a: String| a@) =~= spec_spawn_args(self.backend_port));
            assert(env@.map_values(|e: (String, String)| (e.0@, e.1@)) =~= spec_spawn_env(
                self.backend_port,
            ));
        }
        StartStep::Spawn(
            SpawnCommand {
                program: probe.python_cmd.clone(),
                args,
                env,
                working_dir: probe.project_root.clone(),
            },
        )
    }

    /// Record the outcome of a planned spawn: on success the slot tracks the
    /// new child and the started message names the port and interpreter; on
    /// failure the slot is unchanged and the `SpawnError` message carries the
    /// OS error, the interpreter path and the working directory.
    pub fn record_spawn_outcome(
        &mut self,
        python_cmd: &str,
        project_root: &str,
        ok: bool,
        os_error: &str,
    ) -> (r: Result<String, SupervisorError>)
        ensures
            final(self).backend_port == old(self).backend_port,
            final(self).running == spec_running_after_start(old(self).running, true, ok),
            (r is Ok) == ok,
            ok ==> (r matches Ok(m) && m@ == spec_msg_started(old(self).backend_port, python_cmd@)),
            !ok ==> (r matches Err(e) && e matches SupervisorError::Spawn(m) && m@
                == spec_msg_spawn_failed(os_error@, python_cmd@, project_root@)),
    {
        if ok {
            self.running = true;
            let mut m = String::from_str("Backend started on port ");
            m.append(u16_to_string(self.backend_port).as_str());
            m.append(" using Python: ");
            m.append(python_cmd);
            Ok(m)
        } else {
            let mut m = String::from_str("Failed to start backend: ");
            m.append(os_error);
            m.append(". Python path: ");
            m.append(python_cmd);
            m.append(", Project root: ");
            m.append(project_root);
            Err(SupervisorError::Spawn(m))
        }
    }

    /// Begin a stop: clear the slot, and say whether a running child must be
    /// killed. The slot is cleared even when the kill later fails, as the
    /// handle has been given up.
    pub fn stop_backend(&mut self) -> (kills: bool)
        ensures
            final(self).backend_port == old(self).backend_port,
            !final(self).running,
            kills == spec_stop_kills(old(self).running),
    {
        let kills = self.running;
        self.running = false;
        kills
    }

    /// The result a stop reports: success when nothing was running or the
    /// kill succeeded, a `TerminationError` carrying the OS error otherwise.
    pub fn stop_outcome(kills: bool, kill_ok: bool, os_error: &str) -> (r: Result<
        String,
        SupervisorError,
    >)
        ensures
            (r is Ok) == spec_stop_ok(kills, kill_ok),
            kills && kill_ok ==> (r matches Ok(m) && m@ == "Backend stopped"@),
            !kills ==> (r matches Ok(m) && m@ == "Backend not running"@),
            kills && !kill_ok ==> (r matches Err(e) && e matches SupervisorError::Termination(m)
                && m@ == spec_msg_kill_failed(os_error@)),
    {
        if kills {
            if kill_ok {
                Ok(String::from_str("Backend stopped"))
            } else {
                let mut m = String::from_str("Failed to kill backend process: ");
                m.append(os_error);
                Err(SupervisorError::Termination(m))
            }
        } else {
            Ok(String::from_str("Backend not running"))
        }
    }
}

/// Law: in a sequence of starts with no stop between them, only the first
/// can plan a spawn. Once a start's spawn is recorded as successful, the
/// slot is running and every later start, whatever its probes find, plans
/// nothing and reports the service as already running.
pub proof fn lemma_only_first_start_spawns(
    v1: bool,
    d1: bool,
    s1: bool,
    ok: bool,
    v2: bool,
    d2: bool,
    s2: bool,
)
    ensures
        ({
            let spawned1 = spec_start_spawns(false, v1, d1, s1);
            let t1 = spec_running_after_start(false, spawned1, ok);
            spawned1 && ok ==> t1 && !spec_start_spawns(t1, v2, d2, s2)
        }),
{
}

/// Law: a stop right after a stop kills nothing and always succeeds,
/// whatever the first stop's kill reported: after any stop the slot is
/// untracked, so the second stop owes no kill and its outcome is `Ok`.
pub proof fn lemma_second_stop_always_ok(kill_ok2: bool)
    ensures
        !spec_stop_kills(false),
        spec_stop_ok(spec_stop_kills(false), kill_ok2),
{
}

} // verus!
