//! Stopping a server that runs in the background: the steps between the
//! probes of the process (`kill -0`), the signals sent to it, and the waits
//! in between. The caller performs each action and reports what happened.

use vstd::prelude::*;
use crate::text::{decimal, u64_to_string};

verus! {

/// How many times the stopper waits 100 ms for the process to exit after
/// asking it to terminate.
pub open spec fn max_polls() -> u32 {
    50
}

/// Where the stopper is.
#[derive(Debug, Clone, Copy, PartialEq, Eq, Structural)]
pub enum StopPhase {
    /// Nothing done yet.
    Start,
    /// Probed whether the process runs.
    FirstProbe,
    /// Asked the process to terminate.
    Terminating,
    /// The request to terminate failed; probed whether the process is gone.
    RecheckTerm,
    /// Waiting before the probe after this many earlier polls.
    Waiting(u32),
    /// Probed after this many earlier polls.
    Polling(u32),
    /// Killed the process.
    Killing,
    /// Killing failed; probed whether the process is gone.
    RecheckKill,
    /// The last probe before the pidfile goes.
    FinalCheck,
    /// Nothing more to do.
    Finished,
}

/// What the caller observed.
#[derive(Debug, Clone, Copy, PartialEq, Eq, Structural)]
pub enum StopEvent {
    /// The stopper is started.
    Begin,
    /// A probe found the process running (`true`) or gone.
    Alive(bool),
    /// A signal was delivered (`true`) or not.
    Signalled(bool),
    /// A wait is over.
    Slept,
}

/// How stopping ended well.
#[derive(Debug, Clone, Copy, PartialEq, Eq, Structural)]
pub enum StopOutcome {
    /// The process was not running.
    NotRunning,
    /// The process exited on its own before it could be signalled.
    Exited,
    /// The process was stopped.
    Stopped,
}

/// How stopping failed.
#[derive(Debug, Clone, Copy, PartialEq, Eq, Structural)]
pub enum StopFailure {
    /// The process runs but could not be asked to terminate.
    TermFailed,
    /// The process runs but could not be killed.
    KillFailed,
    /// The process still runs at the end.
    StillRunning,
}

/// What the caller does next.
#[derive(Debug, Clone, Copy, PartialEq, Eq, Structural)]
pub enum StopAction {
    /// Probe whether the process runs.
    Probe,
    /// Ask the process to terminate (SIGTERM).
    Terminate,
    /// Wait 100 ms.
    Sleep,
    /// Kill the process (SIGKILL).
    Kill,
    /// Remove the pidfile and report the outcome.
    Done(StopOutcome),
    /// Report the failure (the pidfile stays).
    Fail(StopFailure),
}

/// What the caller tells the user before the action.
#[derive(Debug, Clone, Copy, PartialEq, Eq, Structural)]
pub enum StopNotice {
    /// The process was asked to terminate.
    Stopping,
    /// The process did not exit in time and is killed.
    Timeout,
}

/// One step of the stopper.
#[derive(Debug, Clone, Copy, PartialEq, Eq, Structural)]
pub struct StopStep {
    pub phase: StopPhase,
    pub action: StopAction,
    pub notice: Option<StopNotice>,
}

/// Whether `event` is what the caller can report in `phase`: the answer to
/// the action of the step that led there.
pub open spec fn expects(phase: StopPhase, event: StopEvent) -> bool {
    match phase {
        StopPhase::Start => event is Begin,
        StopPhase::FirstProbe | StopPhase::RecheckTerm | StopPhase::RecheckKill
        | StopPhase::FinalCheck => event is Alive,
        StopPhase::Polling(n) => event is Alive && n < max_polls(),
        StopPhase::Terminating | StopPhase::Killing => event is Signalled,
        StopPhase::Waiting(n) => event is Slept && n < max_polls(),
        StopPhase::Finished => false,
    }
}

/// The step that follows `event` in `phase`.
pub open spec fn next_stop(phase: StopPhase, event: StopEvent) -> StopStep {
    let step = |p: StopPhase, a: StopAction| StopStep { phase: p, action: a, notice: None };
    match (phase, event) {
        (StopPhase::Start, _) => step(StopPhase::FirstProbe, StopAction::Probe),
        (StopPhase::FirstProbe, StopEvent::Alive(true)) => step(StopPhase::Terminating, StopAction::Terminate),
        (StopPhase::FirstProbe, _) => step(StopPhase::Finished, StopAction::Done(StopOutcome::NotRunning)),
        (StopPhase::Terminating, StopEvent::Signalled(true)) => StopStep {
            phase: StopPhase::Waiting(0),
            action: StopAction::Sleep,
            notice: Some(StopNotice::Stopping),
        },
        (StopPhase::Terminating, _) => step(StopPhase::RecheckTerm, StopAction::Probe),
        (StopPhase::RecheckTerm, StopEvent::Alive(true)) => step(StopPhase::Finished, StopAction::Fail(StopFailure::TermFailed)),
        (StopPhase::RecheckTerm, _) => step(StopPhase::Finished, StopAction::Done(StopOutcome::Exited)),
        (StopPhase::Waiting(n), _) => step(StopPhase::Polling(n), StopAction::Probe),
        (StopPhase::Polling(n), StopEvent::Alive(true)) => if n + 1 < max_polls() {
            step(StopPhase::Waiting((n + 1) as u32), StopAction::Sleep)
        } else {
            StopStep { phase: StopPhase::Killing, action: StopAction::Kill, notice: Some(StopNotice::Timeout) }
        },
        (StopPhase::Polling(n), _) => step(StopPhase::FinalCheck, StopAction::Probe),
        (StopPhase::Killing, StopEvent::Signalled(true)) => step(StopPhase::FinalCheck, StopAction::Probe),
        (StopPhase::Killing, _) => step(StopPhase::RecheckKill, StopAction::Probe),
        (StopPhase::RecheckKill, StopEvent::Alive(true)) => step(StopPhase::Finished, StopAction::Fail(StopFailure::KillFailed)),
        (StopPhase::RecheckKill, _) => step(StopPhase::FinalCheck, StopAction::Probe),
        (StopPhase::FinalCheck, StopEvent::Alive(true)) => step(StopPhase::Finished, StopAction::Fail(StopFailure::StillRunning)),
        (StopPhase::FinalCheck, _) => step(StopPhase::Finished, StopAction::Done(StopOutcome::Stopped)),
        (StopPhase::Finished, _) => step(StopPhase::Finished, StopAction::Fail(StopFailure::StillRunning)),
    }
}

/// The next step of the stopper, after `event` in `phase`.
pub fn stop_step(phase: StopPhase, event: StopEvent) -> (res: StopStep)
    requires
        expects(phase, event),
    ensures
        res == next_stop(phase, event),
{
    let none: Option<StopNotice> = None;
    match phase {
        StopPhase::Start => StopStep { phase: StopPhase::FirstProbe, action: StopAction::Probe, notice: none },
        StopPhase::FirstProbe => match event {
            StopEvent::Alive(true) => StopStep { phase: StopPhase::Terminating, action: StopAction::Terminate, notice: none },
            _ => StopStep { phase: StopPhase::Finished, action: StopAction::Done(StopOutcome::NotRunning), notice: none },
        },
        StopPhase::Terminating => match event {
            StopEvent::Signalled(true) => StopStep {
                phase: StopPhase::Waiting(0),
                action: StopAction::Sleep,
                notice: Some(StopNotice::Stopping),
            },
            _ => StopStep { phase: StopPhase::RecheckTerm, action: StopAction::Probe, notice: none },
        },
        StopPhase::RecheckTerm => match event {
            StopEvent::Alive(true) => StopStep { phase: StopPhase::Finished, action: StopAction::Fail(StopFailure::TermFailed), notice: none },
            _ => StopStep { phase: StopPhase::Finished, action: StopAction::Done(StopOutcome::Exited), notice: none },
        },
        StopPhase::Waiting(n) => StopStep { phase: StopPhase::Polling(n), action: StopAction::Probe, notice: none },
        StopPhase::Polling(n) => match event {
            StopEvent::Alive(true) => if n + 1 < 50 {
                StopStep { phase: StopPhase::Waiting(n + 1), action: StopAction::Sleep, notice: none }
            } else {
                StopStep { phase: StopPhase::Killing, action: StopAction::Kill, notice: Some(StopNotice::Timeout) }
            },
            _ => StopStep { phase: StopPhase::FinalCheck, action: StopAction::Probe, notice: none },
        },
        StopPhase::Killing => match event {
            StopEvent::Signalled(true) => StopStep { phase: StopPhase::FinalCheck, action: StopAction::Probe, notice: none },
            _ => StopStep { phase: StopPhase::RecheckKill, action: StopAction::Probe, notice: none },
        },
        StopPhase::RecheckKill => match event {
            StopEvent::Alive(true) => StopStep { phase: StopPhase::Finished, action: StopAction::Fail(StopFailure::KillFailed), notice: none },
            _ => StopStep { phase: StopPhase::FinalCheck, action: StopAction::Probe, notice: none },
        },
        StopPhase::FinalCheck => match event {
            StopEvent::Alive(true) => StopStep { phase: StopPhase::Finished, action: StopAction::Fail(StopFailure::StillRunning), notice: none },
            _ => StopStep { phase: StopPhase::Finished, action: StopAction::Done(StopOutcome::Stopped), notice: none },
        },
        StopPhase::Finished => StopStep { phase: StopPhase::Finished, action: StopAction::Fail(StopFailure::StillRunning), notice: none },
    }
}

/// A bound on the steps left from `phase`: it shrinks with every step.
pub open spec fn steps_left(phase: StopPhase) -> int {
    match phase {
        StopPhase::Start => 2 * max_polls() + 8,
        StopPhase::FirstProbe => 2 * max_polls() + 7,
        StopPhase::Terminating => 2 * max_polls() + 6,
        StopPhase::RecheckTerm => 1,
        StopPhase::Waiting(n) => 2 * (max_polls() - n) + 5,
        StopPhase::Polling(n) => 2 * (max_polls() - n) + 4,
        StopPhase::Killing => 4,
        StopPhase::RecheckKill => 3,
        StopPhase::FinalCheck => 2,
        StopPhase::Finished => 0,
    }
}

/// The text that reports a successful stop of process `pid`.
pub open spec fn outcome_message(o: StopOutcome, pid: u32) -> Seq<char> {
    match o {
        StopOutcome::NotRunning => "Server 未在运行 (PID: "@ + decimal(pid as nat) + " 已不存在)"@,
        StopOutcome::Exited => "Server 已停止 (PID: "@ + decimal(pid as nat) + " 已退出)"@,
        StopOutcome::Stopped => "Server 已停止"@,
    }
}

/// The text of a failed stop.
pub open spec fn failure_message(f: StopFailure) -> Seq<char> {
    match f {
        StopFailure::TermFailed => "停止 Server 失败"@,
        StopFailure::KillFailed => "强制终止 Server 失败"@,
        StopFailure::StillRunning => "Server 停止后进程仍存在"@,
    }
}

/// The text of a notice about process `pid`.
pub open spec fn notice_message(n: StopNotice, pid: u32) -> Seq<char> {
    match n {
        StopNotice::Stopping => "正在停止 Server (PID: "@ + decimal(pid as nat) + ")..."@,
        StopNotice::Timeout => "优雅关闭超时，强制终止 (PID: "@ + decimal(pid as nat) + ")..."@,
    }
}

fn with_pid(before: &str, pid: u32, after: &str) -> (res: String)
    ensures
        res@ == before@ + decimal(pid as nat) + after@,
{
    let mut s = String::from_str(before);
    s.append(u64_to_string(pid as u64).as_str());
    s.append(after);
    s
}

/// The report of a successful stop.
pub fn outcome_text(o: StopOutcome, pid: u32) -> (res: String)
    ensures
        res@ == outcome_message(o, pid),
{
    match o {
        StopOutcome::NotRunning => with_pid("Server 未在运行 (PID: ", pid, " 已不存在)"),
        StopOutcome::Exited => with_pid("Server 已停止 (PID: ", pid, " 已退出)"),
        StopOutcome::Stopped => String::from_str("Server 已停止"),
    }
}

/// The report of a failed stop.
pub fn failure_text(f: StopFailure) -> (res: String)
    ensures
        res@ == failure_message(f),
{
    match f {
        StopFailure::TermFailed => String::from_str("停止 Server 失败"),
        StopFailure::KillFailed => String::from_str("强制终止 Server 失败"),
        StopFailure::StillRunning => String::from_str("Server 停止后进程仍存在"),
    }
}

/// The text of a notice.
pub fn notice_text(n: StopNotice, pid: u32) -> (res: String)
    ensures
        res@ == notice_message(n, pid),
{
    match n {
        StopNotice::Stopping => with_pid("正在停止 Server (PID: ", pid, ")..."),
        StopNotice::Timeout => with_pid("优雅关闭超时，强制终止 (PID: ", pid, ")..."),
    }
}

} // verus!
