//! The supervisor state machine and the outer engine loop's decisions.
//!
//! A run spawns three workers (capture, processing, playback) joined by
//! bounded queues, synchronises their start over a four-party barrier, and
//! then loops: apply reload requests, honour exit requests, and dispatch
//! worker status messages.  The thread, channel and barrier plumbing lives
//! outside this crate; these functions decide, for every event, how the
//! shared control state changes and which actions the plumbing must take
//! (send a command to capture, release the barrier, join a worker, end the
//! run).

use vstd::prelude::*;

use crate::config::{
    changed_filter_names, config_diff, config_eqv, devices_eqv, filters_eqv, get_used_capture_channels,
    is_used_capture_channels, mixers_eqv, shape_eqv, ConfigChange, Configuration,
};
use vstd::string::StringExecFns;

verus! {

/// Capture-side processing state, as shown to observers.
#[derive(Clone, Copy, Debug, PartialEq, Eq, Structural)]
pub enum ProcessingState {
    Inactive,
    Starting,
    Running,
    Stalled,
}

/// Why the last run stopped.
#[derive(Clone, Debug, PartialEq, Eq)]
pub enum StopReason {
    /// The run has not stopped (or stopped for no recorded reason).
    NotStopped,
    /// Normal end of stream.
    Done,
    CaptureError(String),
    PlaybackError(String),
    /// The capture device changed its sample rate; the new rate is recorded
    /// so the engine can rebuild at it.
    CaptureFormatChange(usize),
    PlaybackFormatChange(usize),
    /// All workers died without reporting.
    UnknownError(String),
}

/// The externally writable exit-request word.
#[derive(Clone, Copy, Debug, PartialEq, Eq, Structural)]
pub enum ExitRequest {
    NoRequest,
    Exit,
    Stop,
}

/// How a run ended: leave the process, or return to the outer loop for a
/// possible restart.
#[derive(Clone, Copy, Debug, PartialEq, Eq, Structural)]
pub enum ExitState {
    Exit,
    Restart,
}

/// A status message from a worker to the supervisor.
#[derive(Clone, Debug, PartialEq, Eq)]
pub enum StatusMessage {
    PlaybackReady,
    CaptureReady,
    PlaybackError(String),
    CaptureError(String),
    PlaybackFormatChange(usize),
    CaptureFormatChange(usize),
    PlaybackDone,
    CaptureDone,
    /// Rate-adjust request from the processing worker's rate controller, in
    /// parts per million, to forward to capture.
    SetSpeed(i64),
}

/// A command from the supervisor to the capture worker.
#[derive(Clone, Copy, Debug, PartialEq, Eq, Structural)]
pub enum CommandMessage {
    SetSpeed(i64),
    Exit,
}

/// The shared control cells: configuration slots, signal flags, and the
/// observable status the supervisor writes.  The plumbing keeps these behind
/// guarded cells; the supervisor logic sees them as one value.
pub struct SharedState {
    pub active_config: Option<Configuration>,
    pub new_config: Option<Configuration>,
    pub prev_config: Option<Configuration>,
    pub stop_reason: StopReason,
    pub capture_state: ProcessingState,
    pub capture_used_channels: Vec<usize>,
    pub signal_reload: bool,
    pub signal_exit: ExitRequest,
}

/// The supervisor's private state for one run: whether it is still in the
/// starting phase, and which ready messages have arrived.
#[derive(Clone, Copy, Debug, PartialEq, Eq, Structural)]
pub struct RunState {
    pub is_starting: bool,
    pub pb_ready: bool,
    pub cap_ready: bool,
}

/// Actions the plumbing must take after one supervisor decision.
#[derive(Clone, Copy, Debug, PartialEq, Eq, Structural)]
pub struct WorkerActions {
    /// Send `CommandMessage::Exit` to the capture worker.
    pub stop_capture: bool,
    /// Wait on the four-party startup barrier, releasing the workers.
    pub release_barrier: bool,
    /// Join the playback worker's thread.
    pub join_playback: bool,
    /// Join the capture worker's thread.
    pub join_capture: bool,
}

/// Outcome of dispatching one status message.
pub struct StatusStep {
    pub actions: WorkerActions,
    /// Forward this rate-adjust value to capture.
    pub forward_speed: Option<i64>,
    /// End the run with this state, if set.
    pub outcome: Option<ExitState>,
}

/// Outcome of an exit-request check.
pub struct ExitStep {
    pub actions: WorkerActions,
    pub outcome: Option<ExitState>,
}

/// Outcome of a reload: the classified change, whether the plumbing must
/// send it (with the new configuration) to the processing worker, the
/// worker actions, and whether the run ends.
pub struct ReloadStep {
    /// The classification, when a valid configuration was loaded.
    pub change: Option<ConfigChange>,
    pub forward_to_pipeline: bool,
    pub actions: WorkerActions,
    pub outcome: Option<ExitState>,
}

/// No worker action.
pub open spec fn no_actions() -> WorkerActions {
    WorkerActions { stop_capture: false, release_barrier: false, join_playback: false, join_capture: false }
}

/// Stop capture and join both workers: the actions of every deliberate
/// teardown.
pub open spec fn stop_and_join_actions() -> WorkerActions {
    WorkerActions { stop_capture: true, release_barrier: false, join_playback: true, join_capture: true }
}

/// Begin a run: adopt the pending configuration as the active one, clear the
/// pending slot and both signal flags, and mark the capture side as
/// starting.  With no pending configuration there is nothing to run and the
/// caller must leave.
pub fn start_run(shared: &mut SharedState) -> (r: Option<RunState>)
    requires
        old(shared).new_config matches Some(c) ==> c.wf(),
    ensures
        final(shared).prev_config == old(shared).prev_config,
        final(shared).stop_reason == old(shared).stop_reason,
        final(shared).capture_state == ProcessingState::Starting,
        old(shared).new_config is None ==> ({
            &&& r is None
            &&& final(shared).active_config == old(shared).active_config
            &&& final(shared).new_config is None
            &&& final(shared).signal_reload == old(shared).signal_reload
            &&& final(shared).signal_exit == old(shared).signal_exit
            &&& final(shared).capture_used_channels == old(shared).capture_used_channels
        }),
        old(shared).new_config matches Some(conf) ==> ({
            &&& r == Some(RunState { is_starting: true, pb_ready: false, cap_ready: false })
            &&& final(shared).active_config == Some(conf)
            &&& final(shared).new_config is None
            &&& final(shared).signal_reload == false
            &&& final(shared).signal_exit == ExitRequest::NoRequest
            &&& is_used_capture_channels(conf, final(shared).capture_used_channels@)
        }),
{
    shared.capture_state = ProcessingState::Starting;
    let pending = shared.new_config.take();
    match pending {
        Option::None => Option::None,
        Option::Some(conf) => {
            shared.signal_reload = false;
            shared.signal_exit = ExitRequest::NoRequest;
            let used = get_used_capture_channels(&conf);
            shared.capture_used_channels = used;
            shared.active_config = Option::Some(conf);
            Option::Some(RunState { is_starting: true, pb_ready: false, cap_ready: false })
        },
    }
}

/// Honour the exit-request word.  Requests are ignored during the starting
/// phase.  `Exit` stops capture, joins both workers and leaves the process;
/// `Stop` does the same but returns to the outer loop with the pending slot
/// cleared.  Either way the active configuration moves to the previous slot.
pub fn handle_exit_request(state: &RunState, shared: &mut SharedState) -> (r: ExitStep)
    ensures
        final(shared).stop_reason == old(shared).stop_reason,
        final(shared).capture_state == old(shared).capture_state,
        final(shared).capture_used_channels == old(shared).capture_used_channels,
        final(shared).signal_reload == old(shared).signal_reload,
        (state.is_starting || old(shared).signal_exit == ExitRequest::NoRequest) ==> ({
            &&& *final(shared) == *old(shared)
            &&& r.actions == no_actions()
            &&& r.outcome is None
        }),
        (!state.is_starting && old(shared).signal_exit == ExitRequest::Exit) ==> ({
            &&& final(shared).signal_exit == ExitRequest::NoRequest
            &&& final(shared).prev_config == old(shared).active_config
            &&& final(shared).active_config is None
            &&& final(shared).new_config == old(shared).new_config
            &&& r.actions == stop_and_join_actions()
            &&& r.outcome == Some(ExitState::Exit)
        }),
        (!state.is_starting && old(shared).signal_exit == ExitRequest::Stop) ==> ({
            &&& final(shared).signal_exit == ExitRequest::NoRequest
            &&& final(shared).prev_config == old(shared).active_config
            &&& final(shared).active_config is None
            &&& final(shared).new_config is None
            &&& r.actions == stop_and_join_actions()
            &&& r.outcome == Some(ExitState::Restart)
        }),
{
    if state.is_starting {
        return ExitStep { actions: no_actions_exec(), outcome: Option::None };
    }
    match shared.signal_exit {
        ExitRequest::NoRequest => ExitStep { actions: no_actions_exec(), outcome: Option::None },
        ExitRequest::Exit => {
            shared.signal_exit = ExitRequest::NoRequest;
            let active = shared.active_config.take();
            shared.prev_config = active;
            ExitStep {
                actions: WorkerActions {
                    stop_capture: true,
                    release_barrier: false,
                    join_playback: true,
                    join_capture: true,
                },
                outcome: Option::Some(ExitState::Exit),
            }
        },
        ExitRequest::Stop => {
            shared.signal_exit = ExitRequest::NoRequest;
            let active = shared.active_config.take();
            shared.prev_config = active;
            shared.new_config = Option::None;
            ExitStep {
                actions: WorkerActions {
                    stop_capture: true,
                    release_barrier: false,
                    join_playback: true,
                    join_capture: true,
                },
                outcome: Option::Some(ExitState::Restart),
            }
        },
    }
}

/// All worker status channels are gone: every worker died without a report.
/// The run ends with an unknown error.
pub fn handle_disconnect(shared: &mut SharedState) -> (r: ExitStep)
    ensures
        final(shared).stop_reason matches StopReason::UnknownError(m) && m@
            == "Capture, Playback and Processing threads have exited"@,
        final(shared).active_config == old(shared).active_config,
        final(shared).new_config == old(shared).new_config,
        final(shared).prev_config == old(shared).prev_config,
        final(shared).capture_state == old(shared).capture_state,
        final(shared).capture_used_channels == old(shared).capture_used_channels,
        final(shared).signal_reload == old(shared).signal_reload,
        final(shared).signal_exit == old(shared).signal_exit,
        r.actions == no_actions(),
        r.outcome == Some(ExitState::Restart),
{
    shared.stop_reason = StopReason::UnknownError(
        String::from_str("Capture, Playback and Processing threads have exited"),
    );
    ExitStep { actions: no_actions_exec(), outcome: Option::Some(ExitState::Restart) }
}

fn no_actions_exec() -> (r: WorkerActions)
    ensures
        r == no_actions(),
{
    WorkerActions {
        stop_capture: false,
        release_barrier: false,
        join_playback: false,
        join_capture: false,
    }
}

/// How one status message moves the supervisor's run state: ready messages
/// are recorded, and the starting phase ends exactly when both have been
/// seen; no other message touches the run state.
pub open spec fn status_run_next(s: RunState, msg: StatusMessage) -> RunState {
    match msg {
        StatusMessage::PlaybackReady => (RunState {
            pb_ready: true,
            is_starting: if s.cap_ready {
                false
            } else {
                s.is_starting
            },
            ..s
        }),
        StatusMessage::CaptureReady => (RunState {
            cap_ready: true,
            is_starting: if s.pb_ready {
                false
            } else {
                s.is_starting
            },
            ..s
        }),
        _ => s,
    }
}

/// The supervisor is out of the starting phase only once both workers have
/// signalled readiness.
pub open spec fn startup_inv(s: RunState) -> bool {
    !s.is_starting ==> s.pb_ready && s.cap_ready
}

/// A message ends the run when it reports a failure, a format change, or
/// the natural end of the stream.
pub open spec fn msg_ends_run(msg: StatusMessage) -> bool {
    ||| msg is PlaybackError
    ||| msg is CaptureError
    ||| msg is PlaybackFormatChange
    ||| msg is CaptureFormatChange
    ||| msg is PlaybackDone
}

/// The stop reason a run-ending message records (`PlaybackDone` only sets
/// `Done` when no reason was recorded yet).
pub open spec fn msg_stop_reason(msg: StatusMessage, prev: StopReason) -> StopReason {
    match msg {
        StatusMessage::PlaybackError(m) => StopReason::PlaybackError(m),
        StatusMessage::CaptureError(m) => StopReason::CaptureError(m),
        StatusMessage::PlaybackFormatChange(rate) => StopReason::PlaybackFormatChange(rate),
        StatusMessage::CaptureFormatChange(rate) => StopReason::CaptureFormatChange(rate),
        StatusMessage::PlaybackDone => if prev is NotStopped {
            StopReason::Done
        } else {
            prev
        },
        _ => prev,
    }
}

/// Law: the startup barrier is safe.  However the run state moves under
/// status messages, it never leaves the starting phase before both workers
/// have signalled readiness; in particular a worker failure during startup
/// leaves the supervisor in the starting phase (the run then ends without a
/// single chunk having been released into the queues).
pub proof fn lemma_startup_barrier(s: RunState, msg: StatusMessage)
    requires
        startup_inv(s),
    ensures
        startup_inv(status_run_next(s, msg)),
        !status_run_next(s, msg).is_starting && s.is_starting ==> (msg is PlaybackReady && s.cap_ready) || (msg is CaptureReady && s.pb_ready),
        msg_ends_run(msg) ==> status_run_next(s, msg) == s,
{
}

/// The run state after a whole sequence of status messages.
pub open spec fn run_state_after(s: RunState, msgs: Seq<StatusMessage>) -> RunState
    decreases msgs.len(),
{
    if msgs.len() == 0 {
        s
    } else {
        status_run_next(run_state_after(s, msgs.drop_last()), msgs.last())
    }
}

/// How many messages of the sequence end the starting phase — each such
/// message is exactly one that makes the supervisor wait on the startup
/// barrier and release the workers.
pub open spec fn barrier_releases(s: RunState, msgs: Seq<StatusMessage>) -> nat
    decreases msgs.len(),
{
    if msgs.len() == 0 {
        0
    } else {
        let p = run_state_after(s, msgs.drop_last());
        barrier_releases(s, msgs.drop_last()) + (if p.is_starting && !status_run_next(
            p,
            msgs.last(),
        ).is_starting {
            1nat
        } else {
            0nat
        })
    }
}

/// Law: the startup barrier is released at most once per run.  Over any
/// sequence of status messages the starting phase, once left, is never
/// re-entered, so the supervisor waits on the startup barrier at most once —
/// and exactly once precisely when the run moves from starting to running,
/// which `lemma_startup_barrier` ties to the second ready message.
pub proof fn lemma_barrier_released_at_most_once(s: RunState, msgs: Seq<StatusMessage>)
    requires
        startup_inv(s),
    ensures
        startup_inv(run_state_after(s, msgs)),
        !s.is_starting ==> !run_state_after(s, msgs).is_starting,
        barrier_releases(s, msgs) <= 1,
        barrier_releases(s, msgs) == 1 <==> s.is_starting && !run_state_after(
            s,
            msgs,
        ).is_starting,
    decreases msgs.len(),
{
    if msgs.len() > 0 {
        lemma_barrier_released_at_most_once(s, msgs.drop_last());
        lemma_startup_barrier(run_state_after(s, msgs.drop_last()), msgs.last());
    }
}

/// Dispatch one worker status message.
///
/// Ready messages are recorded; when the second one arrives the barrier is
/// released, the starting phase ends and the stop reason is cleared.  Errors
/// and format changes record their stop reason, release the barrier if still
/// starting (to free the peer), join the surviving worker and end the run
/// with `Restart`; an error on the playback side also tells capture to exit.
/// `PlaybackDone` ends the run normally; `CaptureDone` is informational;
/// `SetSpeed` is forwarded to the capture worker.
pub fn handle_status(state: &mut RunState, shared: &mut SharedState, msg: StatusMessage) -> (r:
    StatusStep)
    ensures
        *final(state) == status_run_next(*old(state), msg),
        final(shared).capture_state == old(shared).capture_state,
        final(shared).capture_used_channels == old(shared).capture_used_channels,
        final(shared).signal_reload == old(shared).signal_reload,
        final(shared).signal_exit == old(shared).signal_exit,
        r.outcome == if msg_ends_run(msg) {
            Some(ExitState::Restart)
        } else {
            Option::<ExitState>::None
        },
        msg_ends_run(msg) ==> ({
            &&& final(shared).stop_reason == msg_stop_reason(msg, old(shared).stop_reason)
            &&& final(shared).prev_config == old(shared).active_config
            &&& final(shared).active_config is None
            &&& final(shared).new_config == if msg is PlaybackDone {
                old(shared).new_config
            } else {
                Option::<Configuration>::None
            }
            &&& r.actions.release_barrier == (old(state).is_starting && !(msg is PlaybackDone))
            &&& r.actions.stop_capture == (msg is PlaybackError || msg is PlaybackFormatChange)
            &&& r.actions.join_capture == (msg is PlaybackError || msg is PlaybackFormatChange)
            &&& r.actions.join_playback == (msg is CaptureError || msg is CaptureFormatChange)
            &&& r.forward_speed is None
        }),
        msg is PlaybackReady || msg is CaptureReady ==> ({
            &&& final(shared).active_config == old(shared).active_config
            &&& final(shared).new_config == old(shared).new_config
            &&& final(shared).prev_config == old(shared).prev_config
            &&& r.actions.release_barrier == (old(state).is_starting
                && !final(state).is_starting)
            &&& !r.actions.stop_capture
            &&& !r.actions.join_playback
            &&& !r.actions.join_capture
            &&& r.forward_speed is None
            &&& final(shared).stop_reason == ({
                if old(state).is_starting && !final(state).is_starting {
                    StopReason::NotStopped
                } else {
                    old(shared).stop_reason
                }
            })
        }),
        msg is CaptureDone ==> (*final(shared) == *old(shared) && r.actions == no_actions()
            && r.forward_speed is None),
        msg matches StatusMessage::SetSpeed(speed) ==> (*final(shared) == *old(shared) && r.actions
            == no_actions() && r.forward_speed == Some(speed)),
{
    match msg {
        StatusMessage::PlaybackReady => {
            state.pb_ready = true;
            let mut release = false;
            if state.cap_ready {
                if state.is_starting {
                    release = true;
                    shared.stop_reason = StopReason::NotStopped;
                }
                state.is_starting = false;
            }
            StatusStep {
                actions: WorkerActions {
                    stop_capture: false,
                    release_barrier: release,
                    join_playback: false,
                    join_capture: false,
                },
                forward_speed: Option::None,
                outcome: Option::None,
            }
        },
        StatusMessage::CaptureReady => {
            state.cap_ready = true;
            let mut release = false;
            if state.pb_ready {
                if state.is_starting {
                    release = true;
                    shared.stop_reason = StopReason::NotStopped;
                }
                state.is_starting = false;
            }
            StatusStep {
                actions: WorkerActions {
                    stop_capture: false,
                    release_barrier: release,
                    join_playback: false,
                    join_capture: false,
                },
                forward_speed: Option::None,
                outcome: Option::None,
            }
        },
        StatusMessage::PlaybackError(message) => {
            shared.stop_reason = StopReason::PlaybackError(message);
            end_run_slots(shared, true);
            StatusStep {
                actions: WorkerActions {
                    stop_capture: true,
                    release_barrier: state.is_starting,
                    join_playback: false,
                    join_capture: true,
                },
                forward_speed: Option::None,
                outcome: Option::Some(ExitState::Restart),
            }
        },
        StatusMessage::CaptureError(message) => {
            shared.stop_reason = StopReason::CaptureError(message);
            end_run_slots(shared, true);
            StatusStep {
                actions: WorkerActions {
                    stop_capture: false,
                    release_barrier: state.is_starting,
                    join_playback: true,
                    join_capture: false,
                },
                forward_speed: Option::None,
                outcome: Option::Some(ExitState::Restart),
            }
        },
        StatusMessage::PlaybackFormatChange(rate) => {
            shared.stop_reason = StopReason::PlaybackFormatChange(rate);
            end_run_slots(shared, true);
            StatusStep {
                actions: WorkerActions {
                    stop_capture: true,
                    release_barrier: state.is_starting,
                    join_playback: false,
                    join_capture: true,
                },
                forward_speed: Option::None,
                outcome: Option::Some(ExitState::Restart),
            }
        },
        StatusMessage::CaptureFormatChange(rate) => {
            shared.stop_reason = StopReason::CaptureFormatChange(rate);
            end_run_slots(shared, true);
            StatusStep {
                actions: WorkerActions {
                    stop_capture: false,
                    release_barrier: state.is_starting,
                    join_playback: true,
                    join_capture: false,
                },
                forward_speed: Option::None,
                outcome: Option::Some(ExitState::Restart),
            }
        },
        StatusMessage::PlaybackDone => {
            match &shared.stop_reason {
                StopReason::NotStopped => {
                    shared.stop_reason = StopReason::Done;
                },
                _ => {},
            }
            end_run_slots(shared, false);
            StatusStep {
                actions: no_actions_exec(),
                forward_speed: Option::None,
                outcome: Option::Some(ExitState::Restart),
            }
        },
        StatusMessage::CaptureDone => StatusStep {
            actions: no_actions_exec(),
            forward_speed: Option::None,
            outcome: Option::None,
        },
        StatusMessage::SetSpeed(speed) => StatusStep {
            actions: no_actions_exec(),
            forward_speed: Option::Some(speed),
            outcome: Option::None,
        },
    }
}

fn stop_and_join_exec() -> (r: WorkerActions)
    ensures
        r == stop_and_join_actions(),
{
    WorkerActions {
        stop_capture: true,
        release_barrier: false,
        join_playback: true,
        join_capture: true,
    }
}

/// Apply a reload request during a run.
///
/// The caller hands in the newly loaded and validated configuration, or
/// nothing when loading or validation failed; a failed load clears the
/// pending slot (so an invalid configuration left there is not retried) and
/// the run continues on the active configuration.
/// The change against the active configuration is classified: device changes
/// park the new configuration in the pending slot and end the run with
/// `Restart`; parameter and pipeline changes are sent to the processing
/// worker in place (the caller forwards the change together with the new
/// configuration), making it the active configuration and refreshing the
/// used-channel set; an equivalent configuration only clears the pending
/// slot.  A run is torn down by a reload exactly when the device section
/// changed: every other change preserves the running workers.
pub fn handle_reload(shared: &mut SharedState, loaded: Option<Configuration>) -> (r: ReloadStep)
    requires
        old(shared).active_config is Some,
        loaded matches Some(c) ==> c.wf(),
    ensures
        final(shared).signal_reload == false,
        final(shared).signal_exit == old(shared).signal_exit,
        final(shared).stop_reason == old(shared).stop_reason,
        final(shared).prev_config == old(shared).prev_config,
        final(shared).capture_state == old(shared).capture_state,
        loaded is None ==> ({
            &&& final(shared).active_config == old(shared).active_config
            &&& final(shared).new_config is None
            &&& final(shared).capture_used_channels == old(shared).capture_used_channels
            &&& r.change is None
            &&& !r.forward_to_pipeline
            &&& r.actions == no_actions()
            &&& r.outcome is None
        }),
        loaded matches Some(conf) ==> old(shared).active_config matches Some(active) ==> ({
            let restart = !devices_eqv(active.devices, conf.devices);
            let unchanged = config_eqv(active, conf);
            &&& (r.change matches Some(ch) && ((ch is Devices) <==> restart) && ((ch is NoChange)
                <==> unchanged) && ((ch is Pipeline) <==> (!restart && !shape_eqv(active, conf)))
                && ((ch is MixerParameters) <==> (!restart && shape_eqv(active, conf)
                && !mixers_eqv(active.mixers@, conf.mixers@))) && ((ch is FilterParameters) <==> (
            !restart && shape_eqv(active, conf) && mixers_eqv(active.mixers@, conf.mixers@)
                && !filters_eqv(active.filters@, conf.filters@))) && (
            ch matches ConfigChange::FilterParameters { names } ==> names@.map_values(
                |s: String| s@,
            ) == changed_filter_names(active.filters@, conf.filters@)))
            &&& r.outcome == if restart {
                Some(ExitState::Restart)
            } else {
                Option::<ExitState>::None
            }
            &&& r.actions == if restart {
                stop_and_join_actions()
            } else {
                no_actions()
            }
            &&& r.forward_to_pipeline == (!restart && !unchanged)
            &&& restart ==> ({
                &&& final(shared).new_config == Some(conf)
                &&& final(shared).active_config == old(shared).active_config
                &&& final(shared).capture_used_channels == old(shared).capture_used_channels
            })
            &&& (!restart && !unchanged) ==> ({
                &&& final(shared).active_config == Some(conf)
                &&& final(shared).new_config is None
                &&& is_used_capture_channels(conf, final(shared).capture_used_channels@)
            })
            &&& unchanged ==> ({
                &&& final(shared).active_config == old(shared).active_config
                &&& final(shared).new_config is None
                &&& final(shared).capture_used_channels == old(shared).capture_used_channels
            })
        }),
{
    shared.signal_reload = false;
    match loaded {
        Option::None => {
            shared.new_config = Option::None;
            ReloadStep {
                change: Option::None,
                forward_to_pipeline: false,
                actions: no_actions_exec(),
                outcome: Option::None,
            }
        },
        Option::Some(conf) => {
            let change = {
                let active_ref = shared.active_config.as_ref().unwrap();
                config_diff(active_ref, &conf)
            };
            match &change {
                ConfigChange::Devices => {
                    shared.new_config = Option::Some(conf);
                    ReloadStep {
                        change: Option::Some(change),
                        forward_to_pipeline: false,
                        actions: stop_and_join_exec(),
                        outcome: Option::Some(ExitState::Restart),
                    }
                },
                ConfigChange::NoChange => {
                    shared.new_config = Option::None;
                    ReloadStep {
                        change: Option::Some(change),
                        forward_to_pipeline: false,
                        actions: no_actions_exec(),
                        outcome: Option::None,
                    }
                },
                _ => {
                    let used = get_used_capture_channels(&conf);
                    shared.capture_used_channels = used;
                    shared.active_config = Option::Some(conf);
                    shared.new_config = Option::None;
                    ReloadStep {
                        change: Option::Some(change),
                        forward_to_pipeline: true,
                        actions: no_actions_exec(),
                        outcome: Option::None,
                    }
                },
            }
        },
    }
}

/// Which source a reload takes the new configuration from: a pending
/// configuration left by the remote control wins over the configuration
/// file; with neither the reload fails.
#[derive(Clone, Copy, Debug, PartialEq, Eq, Structural)]
pub enum ConfigSource {
    PendingConfig,
    ConfigFile,
    NoSource,
}

/// Decide where a reload reads its configuration from.
pub fn select_config_source(new_config_present: bool, path_present: bool) -> (r: ConfigSource)
    ensures
        r == if new_config_present {
            ConfigSource::PendingConfig
        } else if path_present {
            ConfigSource::ConfigFile
        } else {
            ConfigSource::NoSource
        },
{
    if new_config_present {
        ConfigSource::PendingConfig
    } else if path_present {
        ConfigSource::ConfigFile
    } else {
        ConfigSource::NoSource
    }
}

/// What the outer loop does while no run is active.
#[derive(Clone, Copy, Debug, PartialEq, Eq, Structural)]
pub enum WaitDecision {
    /// A configuration is pending: start a run.
    StartRun,
    /// Leave the process with this exit code.
    ExitProgram(i32),
    /// A reload was requested: load a configuration and store it.
    TryReload,
    /// Sleep briefly and look again.
    KeepWaiting,
}

/// The exit code of an engine that stops waiting: an error from the last
/// run surfaces as a processing-error exit, a clean stop exits normally.
pub open spec fn wait_exit_code(reason: StopReason) -> i32 {
    match reason {
        StopReason::CaptureError(_) => crate::EXIT_PROCESSING_ERROR,
        StopReason::PlaybackError(_) => crate::EXIT_PROCESSING_ERROR,
        StopReason::UnknownError(_) => crate::EXIT_PROCESSING_ERROR,
        _ => crate::EXIT_OK,
    }
}

/// One round of the outer loop's wait for a configuration: start a run when
/// one is pending; otherwise leave when not in wait mode or when exit was
/// requested; otherwise honour a reload request or keep waiting.
pub fn wait_step(shared: &mut SharedState, wait_mode: bool) -> (r: WaitDecision)
    ensures
        final(shared).active_config == old(shared).active_config,
        final(shared).new_config == old(shared).new_config,
        final(shared).prev_config == old(shared).prev_config,
        final(shared).stop_reason == old(shared).stop_reason,
        final(shared).capture_state == old(shared).capture_state,
        final(shared).capture_used_channels == old(shared).capture_used_channels,
        final(shared).signal_exit == old(shared).signal_exit,
        old(shared).new_config is Some ==> ({
            &&& r == WaitDecision::StartRun
            &&& final(shared).signal_reload == old(shared).signal_reload
        }),
        old(shared).new_config is None && !wait_mode ==> ({
            &&& r == WaitDecision::ExitProgram(wait_exit_code(old(shared).stop_reason))
            &&& final(shared).signal_reload == old(shared).signal_reload
        }),
        (old(shared).new_config is None && wait_mode && old(shared).signal_exit
            == ExitRequest::Exit) ==> ({
            &&& r == WaitDecision::ExitProgram(crate::EXIT_OK)
            &&& final(shared).signal_reload == old(shared).signal_reload
        }),
        (old(shared).new_config is None && wait_mode && old(shared).signal_exit
            != ExitRequest::Exit && old(shared).signal_reload) ==> r == WaitDecision::TryReload
            && final(shared).signal_reload == false,
        (old(shared).new_config is None && wait_mode && old(shared).signal_exit
            != ExitRequest::Exit && !old(shared).signal_reload) ==> r == WaitDecision::KeepWaiting
            && final(shared).signal_reload == old(shared).signal_reload,
{
    if shared.new_config.is_some() {
        return WaitDecision::StartRun;
    }
    if !wait_mode {
        let code = match &shared.stop_reason {
            StopReason::CaptureError(_) => crate::EXIT_PROCESSING_ERROR,
            StopReason::PlaybackError(_) => crate::EXIT_PROCESSING_ERROR,
            StopReason::UnknownError(_) => crate::EXIT_PROCESSING_ERROR,
            _ => crate::EXIT_OK,
        };
        return WaitDecision::ExitProgram(code);
    }
    match shared.signal_exit {
        ExitRequest::Exit => WaitDecision::ExitProgram(crate::EXIT_OK),
        _ => {
            if shared.signal_reload {
                shared.signal_reload = false;
                WaitDecision::TryReload
            } else {
                WaitDecision::KeepWaiting
            }
        },
    }
}

/// A newly loaded configuration from the wait loop's reload: store it in the
/// pending slot (a failed load leaves the slot alone).
pub fn store_loaded_config(shared: &mut SharedState, loaded: Option<Configuration>)
    ensures
        final(shared).prev_config == old(shared).prev_config,
        final(shared).active_config == old(shared).active_config,
        final(shared).stop_reason == old(shared).stop_reason,
        final(shared).capture_state == old(shared).capture_state,
        final(shared).capture_used_channels == old(shared).capture_used_channels,
        final(shared).signal_reload == old(shared).signal_reload,
        final(shared).signal_exit == old(shared).signal_exit,
        loaded matches Some(conf) ==> final(shared).new_config == Some(conf),
        loaded is None ==> final(shared).new_config == old(shared).new_config,
{
    match loaded {
        Option::Some(conf) => {
            shared.new_config = Option::Some(conf);
        },
        Option::None => {},
    }
}

/// How a run ended, as the outer loop sees it.
#[derive(Clone, Copy, Debug, PartialEq, Eq, Structural)]
pub enum RunOutcome {
    Completed(ExitState),
    /// The run aborted before its supervisor loop could decide (for
    /// instance, a worker could not be spawned).
    Failed,
}

/// The outer loop's reaction to a finished run: the active slot is cleared;
/// a normal exit leaves with `EXIT_OK`, a restart loops, and a failed run
/// leaves with `EXIT_PROCESSING_ERROR` unless the engine waits for a new
/// configuration.
pub fn after_run(shared: &mut SharedState, outcome: RunOutcome, wait_mode: bool) -> (r: Option<
    i32,
>)
    ensures
        final(shared).active_config is None,
        final(shared).new_config == old(shared).new_config,
        final(shared).prev_config == old(shared).prev_config,
        final(shared).stop_reason == old(shared).stop_reason,
        final(shared).capture_state == old(shared).capture_state,
        final(shared).capture_used_channels == old(shared).capture_used_channels,
        final(shared).signal_reload == old(shared).signal_reload,
        final(shared).signal_exit == old(shared).signal_exit,
        outcome == RunOutcome::Completed(ExitState::Exit) ==> r == Some(crate::EXIT_OK),
        outcome == RunOutcome::Completed(ExitState::Restart) ==> r is None,
        outcome == RunOutcome::Failed ==> r == if wait_mode {
            Option::<i32>::None
        } else {
            Some(crate::EXIT_PROCESSING_ERROR)
        },
{
    shared.active_config = Option::None;
    match outcome {
        RunOutcome::Completed(ExitState::Exit) => Option::Some(crate::EXIT_OK),
        RunOutcome::Completed(ExitState::Restart) => Option::None,
        RunOutcome::Failed => {
            if wait_mode {
                Option::None
            } else {
                Option::Some(crate::EXIT_PROCESSING_ERROR)
            }
        },
    }
}

/// Move the active configuration to the previous slot and, unless the run
/// ended naturally, clear the pending slot.
fn end_run_slots(shared: &mut SharedState, clear_pending: bool)
    ensures
        final(shared).prev_config == old(shared).active_config,
        final(shared).active_config is None,
        final(shared).new_config == if clear_pending {
            Option::<Configuration>::None
        } else {
            old(shared).new_config
        },
        final(shared).stop_reason == old(shared).stop_reason,
        final(shared).capture_state == old(shared).capture_state,
        final(shared).capture_used_channels == old(shared).capture_used_channels,
        final(shared).signal_reload == old(shared).signal_reload,
        final(shared).signal_exit == old(shared).signal_exit,
{
    let active = shared.active_config.take();
    shared.prev_config = active;
    if clear_pending {
        shared.new_config = Option::None;
    }
}

} // verus!
