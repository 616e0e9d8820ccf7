//! The lifecycle controller: planning the delayed start of the companion
//! process and its shutdown on window close.
//!
//! The controller decides; the shell acts. Each routine here takes the
//! state the shell observed (does the entry script exist, what did the
//! spawn return, what does the slot hold) and returns the next state of
//! the slot together with the actions and status lines the shell must
//! carry out. The shell performs the disk probe, the spawn, the
//! termination signal and the blocking wait, and prints the status lines.

use vstd::prelude::*;

use crate::location::AppPath;
use crate::location::BackendLocation;
use crate::slot::ProcessHandle;
use crate::slot::ProcessSlot;

verus! {

/// One human-readable status line the shell is to emit. Diagnostic only:
/// the shell chooses the wording, these carry the facts.
#[derive(Debug, PartialEq, Eq)]
pub enum LogEvent {
    /// The entry script was not found where it was expected; the working
    /// directory is reported beside it to make the miss reproducible.
    BackendMissing { entry: AppPath, cwd: AppPath },
    /// The companion process is running, under this process identifier.
    Started { pid: u32 },
    /// The spawn itself failed, with the OS error rendered as text.
    StartFailed { message: String },
    /// Shutdown is about to stop this process.
    ShutdownInitiated { pid: u32 },
    /// The stopped process has been waited for and is gone.
    ShutdownComplete,
}

/// Everything the shell needs to spawn the companion process: the
/// interpreter, the entry script to hand it as its one argument, and the
/// directory to run it in.
#[derive(Debug, PartialEq, Eq)]
pub struct SpawnRequest {
    pub interpreter: String,
    pub entry: AppPath,
    pub working_dir: AppPath,
}

/// What the start routine decides once the disk has been probed: give up
/// with a report, or go ahead and spawn.
#[derive(Debug, PartialEq, Eq)]
pub enum StartStep {
    /// The entry script is missing: report it and leave the slot alone.
    /// There is no retry.
    Abort { log: LogEvent },
    /// The entry script is there: spawn as requested, then record the
    /// outcome with [`record_spawn`].
    Launch { request: SpawnRequest },
}

/// Decide the start routine's next step from the resolved location and
/// the result of the existence probe on the entry script.
///
/// The slot is deliberately not touched here: when the entry script is
/// missing, nothing was spawned and the slot stays exactly as it was, so
/// a start against a missing backend leaves an empty slot empty.
pub fn plan_start(loc: BackendLocation, entry_exists: bool) -> (step: StartStep)
    ensures
        entry_exists ==> (step matches StartStep::Launch { request }
            && request.interpreter@ == loc.interpreter@
            && request.entry@ == loc.entry@
            && request.working_dir@ == loc.dir@),
        !entry_exists ==> (step matches StartStep::Abort { log }
            && (log matches LogEvent::BackendMissing { entry, cwd }
                && entry@ == loc.entry@
                && cwd@ == loc.cwd@)),
{
    if entry_exists {
        StartStep::Launch {
            request: SpawnRequest {
                interpreter: loc.interpreter,
                entry: loc.entry,
                working_dir: loc.dir,
            },
        }
    } else {
        StartStep::Abort {
            log: LogEvent::BackendMissing { entry: loc.entry, cwd: loc.cwd },
        }
    }
}

/// What the shell's spawn call came back with: a running child with its
/// process identifier, or an OS error rendered as text.
#[derive(Debug, PartialEq, Eq)]
pub enum SpawnOutcome {
    Spawned { pid: u32 },
    Failed { message: String },
}

/// The slot contents after the spawn outcome has been recorded: a
/// successful spawn stores its handle, overwriting anything present; a
/// failed one leaves the slot as it was.
pub open spec fn slot_after_spawn(
    prev: Option<ProcessHandle>,
    outcome: SpawnOutcome,
) -> Option<ProcessHandle> {
    match outcome {
        SpawnOutcome::Spawned { pid } => Some(ProcessHandle { pid }),
        SpawnOutcome::Failed { .. } => prev,
    }
}

/// Record the outcome of the spawn in the slot and say what to report: the
/// new process identifier on success, the failure otherwise. Both outcomes
/// are terminal for the start routine; neither is retried nor escalated.
pub fn record_spawn(slot: &mut ProcessSlot, outcome: SpawnOutcome) -> (log: LogEvent)
    ensures
        final(slot).contents() == slot_after_spawn(old(slot).contents(), outcome),
        outcome matches SpawnOutcome::Spawned { pid } ==> log == (LogEvent::Started { pid }),
        outcome matches SpawnOutcome::Failed { message } ==> (log
            matches LogEvent::StartFailed { message: reported } && reported@ == message@),
{
    match outcome {
        SpawnOutcome::Spawned { pid } => {
            slot.store(ProcessHandle { pid });
            LogEvent::Started { pid }
        },
        SpawnOutcome::Failed { message } => LogEvent::StartFailed { message },
    }
}

/// What the shutdown routine decides: nothing to stop, or stop this one
/// process — send it the platform's termination request, then block until
/// it has exited.
#[derive(Clone, Copy, PartialEq, Eq, Structural, Debug)]
pub enum ShutdownPlan {
    /// The slot was empty: start has not finished, or failed, or shutdown
    /// already ran. Nothing happens and nothing is reported.
    Idle,
    /// Terminate this process and wait for its exit before letting the
    /// close event proceed.
    Stop { handle: ProcessHandle },
}

/// The plan shutdown makes for a given slot content.
pub open spec fn shutdown_plan_of(contents: Option<ProcessHandle>) -> ShutdownPlan {
    match contents {
        Some(handle) => ShutdownPlan::Stop { handle },
        None => ShutdownPlan::Idle,
    }
}

/// The slot contents after a shutdown: empty, whatever was there.
pub open spec fn slot_after_shutdown(contents: Option<ProcessHandle>) -> Option<ProcessHandle> {
    None
}

/// Empty the slot and decide what to stop. Runs on the thread that
/// delivers the close event; the shell carries out a `Stop` plan before
/// it lets application teardown continue, so no child process outlives
/// the application.
pub fn shutdown(slot: &mut ProcessSlot) -> (plan: ShutdownPlan)
    ensures
        final(slot).contents() == slot_after_shutdown(old(slot).contents()),
        plan == shutdown_plan_of(old(slot).contents()),
{
    match slot.take() {
        Some(handle) => ShutdownPlan::Stop { handle },
        None => ShutdownPlan::Idle,
    }
}

/// The status lines a shutdown plan calls for, in order. An idle shutdown
/// reports nothing at all; a stop reports the process it is stopping
/// before the termination request goes out, and completion once the wait
/// has returned.
pub fn shutdown_events(plan: &ShutdownPlan) -> (logs: Vec<LogEvent>)
    ensures
        *plan is Idle ==> logs@.len() == 0,
        *plan matches ShutdownPlan::Stop { handle } ==> (logs@.len() == 2
            && logs@[0] == (LogEvent::ShutdownInitiated { pid: handle.pid })
            && logs@[1] == LogEvent::ShutdownComplete),
{
    match plan {
        ShutdownPlan::Idle => Vec::new(),
        ShutdownPlan::Stop { handle } => {
            let mut logs: Vec<LogEvent> = Vec::new();
            logs.push(LogEvent::ShutdownInitiated { pid: handle.pid });
            logs.push(LogEvent::ShutdownComplete);
            logs
        },
    }
}

/// A successful spawn fills the slot with exactly the spawned process,
/// whatever the slot held before: after start completes on the happy
/// path, the slot holds one handle and its identifier is the spawned
/// process's.
pub proof fn lemma_spawn_success_fills_slot(prev: Option<ProcessHandle>, pid: u32)
    ensures
        slot_after_spawn(prev, SpawnOutcome::Spawned { pid }) == Some(ProcessHandle { pid }),
{
}

/// Shutdown is idempotent: the first shutdown leaves the slot empty, so a
/// second one, run on what the first left behind, plans no work, reports
/// nothing, and leaves the slot exactly as the first did.
pub proof fn lemma_shutdown_idempotent(contents: Option<ProcessHandle>)
    ensures
        shutdown_plan_of(slot_after_shutdown(contents)) == ShutdownPlan::Idle,
        slot_after_shutdown(slot_after_shutdown(contents)) == slot_after_shutdown(contents),
{
}

/// Ordering: a shutdown that runs after a handle was stored plans to stop
/// exactly that process — the one whose exit the shell then awaits — and
/// empties the slot.
pub proof fn lemma_shutdown_stops_stored(handle: ProcessHandle)
    ensures
        shutdown_plan_of(Some(handle)) == (ShutdownPlan::Stop { handle }),
        slot_after_shutdown(Some(handle)) is None,
{
}

/// The race the design accepts: a shutdown that arrives while start is
/// still in its initial delay finds the slot empty, plans no work, and
/// returns at once without error.
///
/// A known weakness follows, inherited deliberately: when start later
/// completes, it still spawns and stores its handle, and with the close
/// event already past, nothing will ever take that handle out again —
/// the spawned process outlives the application. Making the start
/// routine cancelable would close the leak; this design does not.
pub proof fn lemma_shutdown_before_start()
    ensures
        shutdown_plan_of(None) == ShutdownPlan::Idle,
{
}

/// Start, then shutdown, in order: once the spawn step has stored its
/// handle, the next shutdown plans to stop exactly the spawned process
/// and leaves the slot empty.
pub proof fn lemma_start_then_shutdown(prev: Option<ProcessHandle>, pid: u32)
    ensures
        shutdown_plan_of(slot_after_spawn(prev, SpawnOutcome::Spawned { pid }))
            == (ShutdownPlan::Stop { handle: ProcessHandle { pid } }),
        slot_after_shutdown(slot_after_spawn(prev, SpawnOutcome::Spawned { pid })) is None,
{
}

} // verus!
