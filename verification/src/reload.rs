//! The reload decision and the convergence state machine that drives a
//! module reload to a verified outcome.

use vstd::prelude::*;
use crate::inspect::{inspect_model, SysProbeView, V4l2Inspect};

verus! {

/// How many times the device node is probed after a load before giving up.
pub const POLL_ATTEMPTS: u8 = 30;

/// The fixed pause between two device probes, in milliseconds.
pub const POLL_DELAY_MS: u64 = 100;

/// The outcome of the reload decision, evaluated once per request.
#[derive(Clone, Copy, Debug, PartialEq, Eq, Structural)]
pub enum ReloadDecision {
    /// The device is busy, but nothing needs to change: report success
    /// without touching it.
    AlreadyReadyBusy,
    /// A reload is needed or demanded, but the device is in use and the
    /// caller did not force it: reject.
    RejectBusy,
    /// Nothing needs to change: rewrite the static config for drift repair
    /// and report success without a reload.
    AlreadyReady,
    /// Proceed with the reload.
    Reload,
}

/// The reload decision as a pure function of the busy state, the reload
/// requirement and the caller's two override flags, in priority order:
/// busy-device protection first, then the already-converged short cut.
pub open spec fn decide_spec(
    device_busy: bool,
    requires_reload: bool,
    force: bool,
    always_reload: bool,
) -> ReloadDecision {
    if device_busy && !force && !requires_reload && !always_reload {
        ReloadDecision::AlreadyReadyBusy
    } else if device_busy && !force {
        ReloadDecision::RejectBusy
    } else if !requires_reload && !always_reload {
        ReloadDecision::AlreadyReady
    } else {
        ReloadDecision::Reload
    }
}

/// Decides what a reload request must do, given the pre-reload snapshot
/// and the caller's flags.
pub fn decide_reload(before: &V4l2Inspect, force: bool, always_reload: bool) -> (d: ReloadDecision)
    ensures
        d == decide_spec(before.device_busy, before.requires_reload, force, always_reload),
{
    if before.device_busy && !force {
        if !before.requires_reload && !always_reload {
            ReloadDecision::AlreadyReadyBusy
        } else {
            ReloadDecision::RejectBusy
        }
    } else if !before.requires_reload && !always_reload {
        ReloadDecision::AlreadyReady
    } else {
        ReloadDecision::Reload
    }
}

/// The decision table: every combination of the four inputs falls in
/// exactly one row.
pub proof fn lemma_decide_table(busy: bool, req: bool, force: bool, always: bool)
    ensures
        (busy && !force && !req && !always) ==> decide_spec(busy, req, force, always)
            == ReloadDecision::AlreadyReadyBusy,
        (busy && !force && (req || always)) ==> decide_spec(busy, req, force, always)
            == ReloadDecision::RejectBusy,
        ((!busy || force) && !req && !always) ==> decide_spec(busy, req, force, always)
            == ReloadDecision::AlreadyReady,
        ((!busy || force) && (req || always)) ==> decide_spec(busy, req, force, always)
            == ReloadDecision::Reload,
{
}

/// How an external command invocation ended: it ran and succeeded, the
/// tool was not on the search path at all, or it ran and failed.
#[derive(Clone, Copy, Debug, PartialEq, Eq, Structural)]
pub enum CmdOutcome {
    Success,
    NotFound,
    Failed,
}

/// How a reload request ends.
#[derive(Clone, Copy, Debug, PartialEq, Eq, Structural)]
pub enum ReloadOutcome {
    /// Busy device left untouched; it already matched the request.
    BusyButReady,
    /// Nothing to do; the configuration already matched.
    AlreadyReady,
    /// Busy device, reload needed, not forced: rejected.
    RejectedBusy,
    /// The module was reloaded and the fresh snapshot matches the request.
    Reloaded,
    /// The static config file could not be written; nothing else was tried.
    ConfigWriteFailed,
    /// The module-management tool is absent.
    ToolMissing,
    /// The module-management tool ran and failed.
    ToolFailed,
    /// The load nominally succeeded but the device node never appeared
    /// within the probe budget.
    DeviceMissing,
    /// Device present, but the effective parameters still disagree with
    /// the request after the reload.
    WrongConfig,
}

/// Where the convergence driver stands. Each non-final state names the
/// piece of outside work whose result the machine waits for.
#[derive(Clone, Copy, Debug, PartialEq, Eq, Structural)]
pub enum ReloadStep {
    /// Write the static config file; unload first afterwards when the
    /// module was loaded before.
    WriteConfig { unload_first: bool },
    /// Best-effort unload of the already-loaded module.
    UnloadModule,
    /// Load the module with the desired parameters.
    LoadModule,
    /// Probe for the device node, with this many probes left.
    AwaitDevice { probes_left: u8 },
    /// Re-inspect and require a matching configuration.
    VerifyConfig,
    /// Finished.
    Done { outcome: ReloadOutcome },
}

/// The result of one piece of outside work, handed back to the machine.
#[derive(Clone, Copy, Debug, PartialEq, Eq, Structural)]
pub enum ReloadEvent {
    ConfigWritten { ok: bool },
    /// The unload ended; its own failure is deliberately ignored, since
    /// the later verification step is authoritative.
    UnloadFinished,
    LoadFinished { result: CmdOutcome },
    DeviceProbed { exists: bool },
    Inspected { config_matches: bool },
}

/// Where the machine starts: the decision applied to the pre-reload
/// snapshot. Every decision but `Reload` is already final.
pub open spec fn start_spec(
    device_busy: bool,
    requires_reload: bool,
    module_loaded: bool,
    force: bool,
    always_reload: bool,
) -> ReloadStep {
    match decide_spec(device_busy, requires_reload, force, always_reload) {
        ReloadDecision::AlreadyReadyBusy => ReloadStep::Done {
            outcome: ReloadOutcome::BusyButReady,
        },
        ReloadDecision::RejectBusy => ReloadStep::Done { outcome: ReloadOutcome::RejectedBusy },
        ReloadDecision::AlreadyReady => ReloadStep::Done { outcome: ReloadOutcome::AlreadyReady },
        ReloadDecision::Reload => ReloadStep::WriteConfig { unload_first: module_loaded },
    }
}

/// Starts the convergence machine from the pre-reload snapshot and the
/// caller's flags.
pub fn reload_start(before: &V4l2Inspect, force: bool, always_reload: bool) -> (s: ReloadStep)
    ensures
        s == start_spec(
            before.device_busy,
            before.requires_reload,
            before.module_loaded,
            force,
            always_reload,
        ),
{
    match decide_reload(before, force, always_reload) {
        ReloadDecision::AlreadyReadyBusy => ReloadStep::Done {
            outcome: ReloadOutcome::BusyButReady,
        },
        ReloadDecision::RejectBusy => ReloadStep::Done { outcome: ReloadOutcome::RejectedBusy },
        ReloadDecision::AlreadyReady => ReloadStep::Done { outcome: ReloadOutcome::AlreadyReady },
        ReloadDecision::Reload => ReloadStep::WriteConfig { unload_first: before.module_loaded },
    }
}

/// One transition of the convergence machine. A final state absorbs every
/// event; an event that does not fit the state changes nothing.
pub open spec fn step_spec(s: ReloadStep, e: ReloadEvent) -> ReloadStep {
    match (s, e) {
        (ReloadStep::WriteConfig { unload_first }, ReloadEvent::ConfigWritten { ok }) => if !ok {
            ReloadStep::Done { outcome: ReloadOutcome::ConfigWriteFailed }
        } else if unload_first {
            ReloadStep::UnloadModule
        } else {
            ReloadStep::LoadModule
        },
        (ReloadStep::UnloadModule, ReloadEvent::UnloadFinished) => ReloadStep::LoadModule,
        (ReloadStep::LoadModule, ReloadEvent::LoadFinished { result }) => match result {
            CmdOutcome::Success => ReloadStep::AwaitDevice { probes_left: POLL_ATTEMPTS },
            CmdOutcome::NotFound => ReloadStep::Done { outcome: ReloadOutcome::ToolMissing },
            CmdOutcome::Failed => ReloadStep::Done { outcome: ReloadOutcome::ToolFailed },
        },
        (ReloadStep::AwaitDevice { probes_left }, ReloadEvent::DeviceProbed { exists }) => if exists {
            ReloadStep::VerifyConfig
        } else if probes_left > 1 {
            ReloadStep::AwaitDevice { probes_left: (probes_left - 1) as u8 }
        } else {
            ReloadStep::Done { outcome: ReloadOutcome::DeviceMissing }
        },
        (ReloadStep::VerifyConfig, ReloadEvent::Inspected { config_matches }) => if config_matches {
            ReloadStep::Done { outcome: ReloadOutcome::Reloaded }
        } else {
            ReloadStep::Done { outcome: ReloadOutcome::WrongConfig }
        },
        (ReloadStep::Done { outcome }, _) => ReloadStep::Done { outcome },
        _ => s,
    }
}

/// Advances the convergence machine by one observed event.
pub fn reload_step(s: ReloadStep, e: ReloadEvent) -> (r: ReloadStep)
    ensures
        r == step_spec(s, e),
{
    match (s, e) {
        (ReloadStep::WriteConfig { unload_first }, ReloadEvent::ConfigWritten { ok }) => if !ok {
            ReloadStep::Done { outcome: ReloadOutcome::ConfigWriteFailed }
        } else if unload_first {
            ReloadStep::UnloadModule
        } else {
            ReloadStep::LoadModule
        },
        (ReloadStep::UnloadModule, ReloadEvent::UnloadFinished) => ReloadStep::LoadModule,
        (ReloadStep::LoadModule, ReloadEvent::LoadFinished { result }) => match result {
            CmdOutcome::Success => ReloadStep::AwaitDevice { probes_left: POLL_ATTEMPTS },
            CmdOutcome::NotFound => ReloadStep::Done { outcome: ReloadOutcome::ToolMissing },
            CmdOutcome::Failed => ReloadStep::Done { outcome: ReloadOutcome::ToolFailed },
        },
        (ReloadStep::AwaitDevice { probes_left }, ReloadEvent::DeviceProbed { exists }) => if exists {
            ReloadStep::VerifyConfig
        } else if probes_left > 1 {
            ReloadStep::AwaitDevice { probes_left: probes_left - 1 }
        } else {
            ReloadStep::Done { outcome: ReloadOutcome::DeviceMissing }
        },
        (ReloadStep::VerifyConfig, ReloadEvent::Inspected { config_matches }) => if config_matches {
            ReloadStep::Done { outcome: ReloadOutcome::Reloaded }
        } else {
            ReloadStep::Done { outcome: ReloadOutcome::WrongConfig }
        },
        (ReloadStep::Done { outcome }, _) => ReloadStep::Done { outcome },
        _ => s,
    }
}

/// The machine after a whole run of observed events.
pub open spec fn run_steps(s0: ReloadStep, events: Seq<ReloadEvent>) -> ReloadStep
    decreases events.len(),
{
    if events.len() == 0 {
        s0
    } else {
        run_steps(step_spec(s0, events[0]), events.drop_first())
    }
}

/// A finished machine stays finished, whatever else is observed.
pub proof fn lemma_done_absorbing(o: ReloadOutcome, events: Seq<ReloadEvent>)
    ensures
        run_steps(ReloadStep::Done { outcome: o }, events) == (ReloadStep::Done { outcome: o }),
    decreases events.len(),
{
    if events.len() > 0 {
        lemma_done_absorbing(o, events.drop_first());
    }
}

/// A state that stands before the verification step.
pub open spec fn is_pre_verify(s: ReloadStep) -> bool {
    s is WriteConfig || s is UnloadModule || s is LoadModule || s is AwaitDevice
}

/// From the verification state, the machine reports a successful reload
/// only after observing a fresh snapshot whose configuration matches.
pub proof fn lemma_success_needs_matching_snapshot(events: Seq<ReloadEvent>)
    requires
        run_steps(ReloadStep::VerifyConfig, events) == (ReloadStep::Done {
            outcome: ReloadOutcome::Reloaded,
        }),
    ensures
        exists|i: int|
            0 <= i < events.len() && events[i] == (ReloadEvent::Inspected { config_matches: true }),
    decreases events.len(),
{
    let s1 = step_spec(ReloadStep::VerifyConfig, events[0]);
    if s1 == ReloadStep::VerifyConfig {
        lemma_success_needs_matching_snapshot(events.drop_first());
        let i = choose|i: int|
            0 <= i < events.drop_first().len() && events.drop_first()[i] == (
            ReloadEvent::Inspected { config_matches: true });
        assert(events[i + 1] == (ReloadEvent::Inspected { config_matches: true }));
    } else {
        match s1 {
            ReloadStep::Done { outcome } => {
                lemma_done_absorbing(outcome, events.drop_first());
                assert(outcome == ReloadOutcome::Reloaded);
                assert(events[0] == (ReloadEvent::Inspected { config_matches: true }));
            },
            _ => {
                assert(false);
            },
        }
    }
}

/// Round trip: from any state before verification, the machine reports a
/// successful reload only after the device node was seen to exist and a
/// fresh snapshot's configuration matched; otherwise the run ends in one
/// of the failure outcomes instead.
pub proof fn lemma_reload_round_trip(s0: ReloadStep, events: Seq<ReloadEvent>)
    requires
        is_pre_verify(s0),
        run_steps(s0, events) == (ReloadStep::Done { outcome: ReloadOutcome::Reloaded }),
    ensures
        exists|i: int|
            0 <= i < events.len() && events[i] == (ReloadEvent::DeviceProbed { exists: true }),
        exists|i: int|
            0 <= i < events.len() && events[i] == (ReloadEvent::Inspected { config_matches: true }),
    decreases events.len(),
{
    let rest = events.drop_first();
    let s1 = step_spec(s0, events[0]);
    if is_pre_verify(s1) {
        lemma_reload_round_trip(s1, rest);
        let i = choose|i: int|
            0 <= i < rest.len() && rest[i] == (ReloadEvent::DeviceProbed { exists: true });
        assert(events[i + 1] == (ReloadEvent::DeviceProbed { exists: true }));
        let j = choose|j: int|
            0 <= j < rest.len() && rest[j] == (ReloadEvent::Inspected { config_matches: true });
        assert(events[j + 1] == (ReloadEvent::Inspected { config_matches: true }));
    } else if s1 == ReloadStep::VerifyConfig {
        assert(events[0] == (ReloadEvent::DeviceProbed { exists: true }));
        lemma_success_needs_matching_snapshot(rest);
        let j = choose|j: int|
            0 <= j < rest.len() && rest[j] == (ReloadEvent::Inspected { config_matches: true });
        assert(events[j + 1] == (ReloadEvent::Inspected { config_matches: true }));
    } else {
        match s1 {
            ReloadStep::Done { outcome } => {
                lemma_done_absorbing(outcome, rest);
                assert(outcome == ReloadOutcome::Reloaded);
                assert(false);
            },
            _ => {
                assert(false);
            },
        }
    }
}

/// After the device probes begin, the run can only end in a successful
/// reload, a missing device, or a configuration mismatch.
pub proof fn lemma_post_load_outcomes(k: u8, events: Seq<ReloadEvent>, o: ReloadOutcome)
    requires
        run_steps(ReloadStep::AwaitDevice { probes_left: k }, events) == (ReloadStep::Done {
            outcome: o,
        }),
    ensures
        o == ReloadOutcome::Reloaded || o == ReloadOutcome::DeviceMissing || o
            == ReloadOutcome::WrongConfig,
    decreases events.len(),
{
    let s0 = ReloadStep::AwaitDevice { probes_left: k };
    let rest = events.drop_first();
    let s1 = step_spec(s0, events[0]);
    match s1 {
        ReloadStep::AwaitDevice { probes_left } => {
            lemma_post_load_outcomes(probes_left, rest, o);
        },
        ReloadStep::VerifyConfig => {
            lemma_verify_outcomes(rest, o);
        },
        ReloadStep::Done { outcome } => {
            lemma_done_absorbing(outcome, rest);
        },
        _ => {
            assert(false);
        },
    }
}

/// From the verification state, the run can only end in a successful
/// reload or a configuration mismatch.
pub proof fn lemma_verify_outcomes(events: Seq<ReloadEvent>, o: ReloadOutcome)
    requires
        run_steps(ReloadStep::VerifyConfig, events) == (ReloadStep::Done { outcome: o }),
    ensures
        o == ReloadOutcome::Reloaded || o == ReloadOutcome::WrongConfig,
    decreases events.len(),
{
    let rest = events.drop_first();
    let s1 = step_spec(ReloadStep::VerifyConfig, events[0]);
    match s1 {
        ReloadStep::VerifyConfig => {
            lemma_verify_outcomes(rest, o);
        },
        ReloadStep::Done { outcome } => {
            lemma_done_absorbing(outcome, rest);
        },
        _ => {
            assert(false);
        },
    }
}

/// Idempotence of reload: once a snapshot shows a matching configuration
/// on an existing device, a second reload request with the same parameters
/// and no override decides `AlreadyReady` — or `AlreadyReadyBusy` if the
/// device became busy — and the machine finishes without reloading again.
pub proof fn lemma_reload_idempotent(
    nr: int,
    label: Seq<char>,
    excl: bool,
    sys: SysProbeView,
    force: bool,
)
    requires
        inspect_model(nr, label, excl, sys).config_matches,
        inspect_model(nr, label, excl, sys).device_exists,
    ensures
        ({
            let m = inspect_model(nr, label, excl, sys);
            decide_spec(m.device_busy, m.requires_reload, force, false) == if m.device_busy
                && !force {
                ReloadDecision::AlreadyReadyBusy
            } else {
                ReloadDecision::AlreadyReady
            }
        }),
        ({
            let m = inspect_model(nr, label, excl, sys);
            start_spec(m.device_busy, m.requires_reload, m.module_loaded, force, false) == (
            ReloadStep::Done {
                outcome: if m.device_busy && !force {
                    ReloadOutcome::BusyButReady
                } else {
                    ReloadOutcome::AlreadyReady
                },
            })
        }),
{
    let m = inspect_model(nr, label, excl, sys);
    assert(sys.module_loaded);
    assert(!m.requires_reload);
}

} // verus!
