//! The startup orchestrator: the sequence executed once at process start.
//!
//! Allocate a port, spawn the server bound to it, register the child with
//! the supervisor, probe readiness with a fixed timeout, then navigate the
//! shell to the local URL. Port allocation and spawning are fatal when they
//! fail; a readiness timeout only earns a warning — navigation happens
//! regardless. The operating-system work (binding sockets, spawning the
//! process, the shell's navigation) is done by the driver; the orchestrator
//! consumes the outcome of each step as an event and decides, with verified
//! contracts, the next command — so the ordering of the sequence is part of
//! its contract.

use vstd::prelude::*;
use crate::port::Port;
use crate::supervisor::ServerHandle;
use crate::text::{spec_decimal, spec_local_url, decimal_string, local_url};

verus! {

/// How long readiness probing may take before startup proceeds anyway.
pub const STARTUP_PROBE_TIMEOUT_MS: u64 = 10000;

/// How the server process is to be launched: its binary, its arguments and
/// its environment.
pub struct SpawnPlan {
    /// The server binary to execute.
    pub program: String,
    /// Command-line arguments, in order.
    pub args: Vec<String>,
    /// Environment variables as (name, value), in order.
    pub env: Vec<(String, String)>,
}

/// A spawn plan is for `port` and `skills_dir` when it launches the server
/// with `--no-browser <port>` and the fixed environment: the skills
/// directory and the bundled-execution marker.
pub open spec fn spec_plan_matches(plan: SpawnPlan, port: Port, skills_dir: Seq<char>) -> bool {
    &&& plan.args@.len() == 2
    &&& plan.args@[0]@ == "--no-browser"@
    &&& plan.args@[1]@ == spec_decimal(port.spec_value() as nat)
    &&& plan.env@.len() == 2
    &&& plan.env@[0].0@ == "SKILLS_DIR"@
    &&& plan.env@[0].1@ == skills_dir
    &&& plan.env@[1].0@ == "BUNDLED_MODE"@
    &&& plan.env@[1].1@ == "1"@
}

/// Builds the launch plan for the server: the negotiated port as an
/// argument after `--no-browser`, and the fixed environment variables.
pub fn spawn_plan(program: String, port: Port, skills_dir: String) -> (plan: SpawnPlan)
    ensures
        plan.program@ == program@,
        spec_plan_matches(plan, port, skills_dir@),
{
    let mut args: Vec<String> = Vec::new();
    args.push("--no-browser".to_owned());
    args.push(decimal_string(port.value()));
    let mut env: Vec<(String, String)> = Vec::new();
    env.push(("SKILLS_DIR".to_owned(), skills_dir));
    env.push(("BUNDLED_MODE".to_owned(), "1".to_owned()));
    SpawnPlan { program, args, env }
}

/// Where the startup sequence stands.
#[derive(Clone, Copy, PartialEq, Eq, Structural, Debug)]
pub enum StartupPhase {
    /// Asking the operating system for a free port.
    AllocatingPort,
    /// Launching the server binary.
    Spawning,
    /// Waiting for a listener on the allocated port.
    Probing,
    /// Pointing the shell at the local URL.
    Navigating,
    /// Startup is over and the shell shows the application.
    Complete,
    /// A fatal step failed; the application cannot run.
    Failed,
}

/// The outcome of one startup step, delivered by the driver.
pub enum StartupEvent {
    /// The operating system assigned this port.
    PortAllocated(Port),
    /// The operating system refused to bind any ephemeral port.
    PortAllocationFailed,
    /// The server binary was launched as this child process.
    ServerSpawned(ServerHandle),
    /// The server binary could not be launched.
    SpawnFailed,
    /// The readiness probe finished with this result.
    ProbeFinished(bool),
    /// The shell was told to navigate.
    NavigationIssued,
}

/// What the orchestrator asks its driver to do next.
pub enum StartupCommand {
    /// Launch the server as the plan says.
    SpawnServer(SpawnPlan),
    /// Register the child with the supervised-resource store, then probe
    /// the port for readiness with the given timeout.
    RegisterAndProbe {
        /// The child to register.
        handle: ServerHandle,
        /// The port to probe.
        port: Port,
        /// The probe's timeout.
        timeout_ms: u64,
    },
    /// Point the shell at the URL, logging the warning first if the server
    /// was not ready in time (a soft failure: navigation happens anyway).
    Navigate {
        /// The local URL of the served application.
        url: String,
        /// The warning to log when readiness timed out.
        warning: Option<String>,
    },
    /// Abort startup with this diagnostic: the application cannot run.
    Abort {
        /// The fatal diagnostic.
        message: String,
    },
    /// Startup is over; there is nothing left to do.
    Idle,
}

/// The startup sequence, driven by events.
pub struct Orchestrator {
    /// Where the sequence stands.
    pub phase: StartupPhase,
    /// The allocated port, once one exists.
    pub port: Option<Port>,
    /// The server binary to launch.
    pub program: String,
    /// The skills directory handed to the server.
    pub skills_dir: String,
}

impl Orchestrator {
    /// A port is held exactly from allocation on (unless startup failed),
    /// and every held port is one the operating system can assign.
    pub open spec fn wf(self) -> bool {
        match self.phase {
            StartupPhase::AllocatingPort => self.port is None,
            StartupPhase::Failed => true,
            _ => self.port matches Some(p) && p.valid(),
        }
    }

    /// Which event the orchestrator is waiting for: each step's outcome is
    /// consumed exactly in its phase, which makes the ordering — allocate
    /// before spawn before probe before navigate — part of the contract.
    pub open spec fn expects(self, event: StartupEvent) -> bool {
        match event {
            StartupEvent::PortAllocated(p) => self.phase is AllocatingPort && p.valid(),
            StartupEvent::PortAllocationFailed => self.phase is AllocatingPort,
            StartupEvent::ServerSpawned(_) => self.phase is Spawning,
            StartupEvent::SpawnFailed => self.phase is Spawning,
            StartupEvent::ProbeFinished(_) => self.phase is Probing,
            StartupEvent::NavigationIssued => self.phase is Navigating,
        }
    }

    /// A sequence about to ask for a port, for the given server binary and
    /// skills directory.
    pub fn new(program: String, skills_dir: String) -> (o: Orchestrator)
        ensures
            o.wf(),
            o.phase is AllocatingPort,
            o.port is None,
            o.program@ == program@,
            o.skills_dir@ == skills_dir@,
    {
        Orchestrator { phase: StartupPhase::AllocatingPort, port: None, program, skills_dir }
    }

    /// Consumes the outcome of the current step and decides the next
    /// command: an allocated port is spawned on; a spawned child is
    /// registered and probed; a probe result — ready or not — leads to
    /// navigation, with a warning logged on timeout; allocation or spawn
    /// failure aborts startup.
    pub fn step(&mut self, event: StartupEvent) -> (cmd: StartupCommand)
        requires
            old(self).wf(),
            old(self).expects(event),
        ensures
            final(self).wf(),
            final(self).program@ == old(self).program@,
            final(self).skills_dir@ == old(self).skills_dir@,
            match event {
                StartupEvent::PortAllocated(p) => final(self).phase is Spawning
                    && final(self).port == Some(p) && (cmd matches StartupCommand::SpawnServer(plan)
                    && plan.program@ == old(self).program@ && spec_plan_matches(
                    plan,
                    p,
                    old(self).skills_dir@,
                )),
                StartupEvent::PortAllocationFailed => final(self).phase is Failed && (
                cmd matches StartupCommand::Abort { message } && message@
                    == "Failed to bind to port 0"@),
                StartupEvent::ServerSpawned(h) => final(self).phase is Probing && final(self).port
                    == old(self).port && (cmd matches StartupCommand::RegisterAndProbe {
                    handle,
                    port,
                    timeout_ms,
                } && handle == h && Some(port) == old(self).port && timeout_ms
                    == STARTUP_PROBE_TIMEOUT_MS),
                StartupEvent::SpawnFailed => final(self).phase is Failed && (
                cmd matches StartupCommand::Abort { message } && message@
                    == "Failed to start agent-skills-server"@),
                StartupEvent::ProbeFinished(ready) => final(self).phase is Navigating
                    && final(self).port == old(self).port && (cmd matches StartupCommand::Navigate {
                    url,
                    warning,
                } && url@ == spec_local_url(old(self).port->Some_0) && (ready ==> warning is None)
                    && (!ready ==> (warning matches Some(w) && w@
                    == "Warning: web.py did not start within 10 seconds"@))),
                StartupEvent::NavigationIssued => final(self).phase is Complete && final(self).port
                    == old(self).port && cmd is Idle,
            },
    {
        match event {
            StartupEvent::PortAllocated(p) => {
                self.phase = StartupPhase::Spawning;
                self.port = Some(p);
                let plan = spawn_plan(self.program.clone(), p, self.skills_dir.clone());
                StartupCommand::SpawnServer(plan)
            },
            StartupEvent::PortAllocationFailed => {
                self.phase = StartupPhase::Failed;
                StartupCommand::Abort { message: "Failed to bind to port 0".to_owned() }
            },
            StartupEvent::ServerSpawned(h) => {
                self.phase = StartupPhase::Probing;
                let p = self.port.unwrap();
                StartupCommand::RegisterAndProbe {
                    handle: h,
                    port: p,
                    timeout_ms: STARTUP_PROBE_TIMEOUT_MS,
                }
            },
            StartupEvent::SpawnFailed => {
                self.phase = StartupPhase::Failed;
                StartupCommand::Abort { message: "Failed to start agent-skills-server".to_owned() }
            },
            StartupEvent::ProbeFinished(ready) => {
                self.phase = StartupPhase::Navigating;
                let p = self.port.unwrap();
                let url = local_url(p);
                let warning = if ready {
                    None
                } else {
                    Some("Warning: web.py did not start within 10 seconds".to_owned())
                };
                StartupCommand::Navigate { url, warning }
            },
            StartupEvent::NavigationIssued => {
                self.phase = StartupPhase::Complete;
                StartupCommand::Idle
            },
        }
    }
}

} // verus!
