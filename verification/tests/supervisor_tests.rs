use camilladsp::config::{
    ConfigChange, Configuration, DeviceConf, DevicesConf, FilterConf, FilterKind, PipelineStepConf,
    SampleFormat,
};
use camilladsp::supervisor::{
    after_run, handle_disconnect, handle_exit_request, handle_reload, handle_status,
    select_config_source, start_run, store_loaded_config, wait_step, CommandMessage, ConfigSource,
    ExitRequest, ExitState, ProcessingState, RunOutcome, RunState, SharedState, StatusMessage,
    StopReason, WaitDecision,
};
use camilladsp::{EXIT_BAD_CONFIG, EXIT_OK, EXIT_PROCESSING_ERROR};

fn device(name: &str) -> DeviceConf {
    DeviceConf {
        kind: "alsa".to_string(),
        device: name.to_string(),
        channels: 2,
        format: SampleFormat::S32LE,
    }
}

fn config(chunksize: usize) -> Configuration {
    Configuration {
        devices: DevicesConf {
            samplerate: 48_000,
            chunksize,
            queuelimit: 4,
            extra_samples: 0,
            capture: device("hw:0"),
            playback: device("hw:1"),
        },
        filters: vec![FilterConf {
            name: "eq1".to_string(),
            kind: FilterKind::Biquad,
            params: vec![1_000, 12_000, 0],
        }],
        mixers: vec![],
        pipeline: vec![PipelineStepConf::Filters {
            channel: 0,
            names: vec!["eq1".to_string()],
        }],
    }
}

fn shared_running() -> SharedState {
    SharedState {
        active_config: Some(config(1024)),
        new_config: None,
        prev_config: None,
        stop_reason: StopReason::NotStopped,
        capture_state: ProcessingState::Running,
        capture_used_channels: vec![0, 1],
        signal_reload: false,
        signal_exit: ExitRequest::NoRequest,
    }
}

fn running_state() -> RunState {
    RunState { is_starting: false, pb_ready: true, cap_ready: true }
}

fn starting_state() -> RunState {
    RunState { is_starting: true, pb_ready: false, cap_ready: false }
}

#[test]
fn exit_codes() {
    assert_eq!(EXIT_OK, 0);
    assert_eq!(EXIT_BAD_CONFIG, 101);
    assert_eq!(EXIT_PROCESSING_ERROR, 102);
}

#[test]
fn start_run_adopts_the_pending_config() {
    let mut shared = shared_running();
    shared.active_config = None;
    shared.new_config = Some(config(1024));
    shared.signal_reload = true;
    shared.signal_exit = ExitRequest::Exit;
    let rs = start_run(&mut shared).expect("a config is pending");
    assert!(rs.is_starting && !rs.pb_ready && !rs.cap_ready);
    assert!(shared.active_config.is_some());
    assert!(shared.new_config.is_none());
    assert!(!shared.signal_reload);
    assert_eq!(shared.signal_exit, ExitRequest::NoRequest);
    assert_eq!(shared.capture_state, ProcessingState::Starting);
    assert_eq!(shared.capture_used_channels, vec![0, 1]);
}

#[test]
fn start_run_without_config_declines() {
    let mut shared = shared_running();
    shared.active_config = None;
    shared.new_config = None;
    assert!(start_run(&mut shared).is_none());
    assert_eq!(shared.capture_state, ProcessingState::Starting);
}

/// The barrier is released only when both workers are ready, in either
/// arrival order; the stop reason is reset at that moment.
#[test]
fn barrier_released_only_when_both_ready() {
    let mut shared = shared_running();
    shared.stop_reason = StopReason::Done;
    let mut state = starting_state();
    let step = handle_status(&mut state, &mut shared, StatusMessage::PlaybackReady);
    assert!(!step.actions.release_barrier);
    assert!(state.is_starting);
    assert_eq!(shared.stop_reason, StopReason::Done);
    let step = handle_status(&mut state, &mut shared, StatusMessage::CaptureReady);
    assert!(step.actions.release_barrier);
    assert!(!state.is_starting);
    assert_eq!(shared.stop_reason, StopReason::NotStopped);
}

#[test]
fn barrier_released_when_capture_reports_first() {
    let mut shared = shared_running();
    let mut state = starting_state();
    let step = handle_status(&mut state, &mut shared, StatusMessage::CaptureReady);
    assert!(!step.actions.release_barrier);
    assert!(state.is_starting);
    let step = handle_status(&mut state, &mut shared, StatusMessage::PlaybackReady);
    assert!(step.actions.release_barrier);
    assert!(!state.is_starting);
}

/// A worker failing before readiness still releases the barrier (to free
/// the peer) but the run never leaves the starting phase: no chunk flows.
#[test]
fn failure_before_readiness_ends_the_run_still_starting() {
    let mut shared = shared_running();
    let mut state = starting_state();
    state.pb_ready = true; // playback ready, capture failed instead of reporting
    let step = handle_status(
        &mut state,
        &mut shared,
        StatusMessage::CaptureError("device vanished".to_string()),
    );
    assert!(step.actions.release_barrier);
    assert!(step.actions.join_playback);
    assert!(!step.actions.join_capture);
    assert_eq!(step.outcome, Some(ExitState::Restart));
    assert!(state.is_starting);
    assert_eq!(shared.stop_reason, StopReason::CaptureError("device vanished".to_string()));
}

/// A capture failure mid-run drains playback, records the reason and
/// restarts; the outer loop in wait mode then stays alive.
#[test]
fn capture_failure_restarts_and_wait_mode_stays_alive() {
    let mut shared = shared_running();
    let mut state = running_state();
    let step = handle_status(
        &mut state,
        &mut shared,
        StatusMessage::CaptureError("boom".to_string()),
    );
    assert_eq!(step.outcome, Some(ExitState::Restart));
    assert!(step.actions.join_playback);
    assert!(!step.actions.join_capture);
    assert!(!step.actions.release_barrier);
    assert_eq!(shared.stop_reason, StopReason::CaptureError("boom".to_string()));
    assert!(shared.new_config.is_none());
    assert!(shared.active_config.is_none());
    assert!(shared.prev_config.is_some());
    // Outer loop: no exit code, then keep waiting for a new config.
    assert_eq!(after_run(&mut shared, RunOutcome::Completed(ExitState::Restart), true), None);
    assert_eq!(wait_step(&mut shared, true), WaitDecision::KeepWaiting);
}

#[test]
fn playback_error_stops_capture_and_joins_it() {
    let mut shared = shared_running();
    let mut state = running_state();
    let step = handle_status(
        &mut state,
        &mut shared,
        StatusMessage::PlaybackError("underrun".to_string()),
    );
    assert!(step.actions.stop_capture);
    assert!(step.actions.join_capture);
    assert!(!step.actions.join_playback);
    assert_eq!(step.outcome, Some(ExitState::Restart));
    assert_eq!(shared.stop_reason, StopReason::PlaybackError("underrun".to_string()));
}

#[test]
fn format_change_records_the_new_rate() {
    let mut shared = shared_running();
    let mut state = running_state();
    let step = handle_status(&mut state, &mut shared, StatusMessage::CaptureFormatChange(44_100));
    assert_eq!(shared.stop_reason, StopReason::CaptureFormatChange(44_100));
    assert_eq!(step.outcome, Some(ExitState::Restart));
    assert!(step.actions.join_playback);
}

#[test]
fn playback_format_change_stops_capture_and_records_the_rate() {
    let mut shared = shared_running();
    let mut state = running_state();
    let step = handle_status(&mut state, &mut shared, StatusMessage::PlaybackFormatChange(96_000));
    assert_eq!(shared.stop_reason, StopReason::PlaybackFormatChange(96_000));
    assert_eq!(step.outcome, Some(ExitState::Restart));
    assert!(step.actions.stop_capture);
    assert!(step.actions.join_capture && !step.actions.join_playback);
}

#[test]
fn playback_done_sets_done_only_when_unset() {
    let mut shared = shared_running();
    let mut state = running_state();
    let step = handle_status(&mut state, &mut shared, StatusMessage::PlaybackDone);
    assert_eq!(shared.stop_reason, StopReason::Done);
    assert_eq!(step.outcome, Some(ExitState::Restart));
    assert!(!step.actions.join_playback && !step.actions.join_capture);
    // An earlier reason is kept.
    let mut shared2 = shared_running();
    shared2.stop_reason = StopReason::CaptureError("boom".to_string());
    let _ = handle_status(&mut state, &mut shared2, StatusMessage::PlaybackDone);
    assert_eq!(shared2.stop_reason, StopReason::CaptureError("boom".to_string()));
}

#[test]
fn capture_done_is_informational() {
    let mut shared = shared_running();
    let mut state = running_state();
    let step = handle_status(&mut state, &mut shared, StatusMessage::CaptureDone);
    assert_eq!(step.outcome, None);
    assert!(shared.active_config.is_some());
}

#[test]
fn set_speed_is_forwarded_to_capture() {
    let mut shared = shared_running();
    let mut state = running_state();
    let step = handle_status(&mut state, &mut shared, StatusMessage::SetSpeed(250));
    assert_eq!(step.forward_speed, Some(250));
    assert_eq!(step.outcome, None);
    assert_eq!(CommandMessage::SetSpeed(250), CommandMessage::SetSpeed(250));
}

#[test]
fn disconnect_is_an_unknown_error() {
    let mut shared = shared_running();
    let step = handle_disconnect(&mut shared);
    assert_eq!(step.outcome, Some(ExitState::Restart));
    assert!(matches!(shared.stop_reason, StopReason::UnknownError(_)));
}

/// A parameter-only reload is applied in place: the change goes to the
/// processing worker, the active slot is swapped, the pending slot cleared,
/// and no worker is stopped or joined.
#[test]
fn filter_tweak_reloads_in_place() {
    let mut shared = shared_running();
    let mut newc = config(1024);
    newc.filters[0].params[2] = 3_000; // 0 dB -> +3 dB
    let step = handle_reload(&mut shared, Some(newc.clone()));
    match step.change {
        Some(ConfigChange::FilterParameters { names }) => {
            assert_eq!(names, vec!["eq1".to_string()])
        }
        other => panic!("expected FilterParameters, got {other:?}"),
    }
    assert!(step.forward_to_pipeline);
    assert!(!step.actions.stop_capture && !step.actions.join_playback && !step.actions.join_capture);
    assert_eq!(step.outcome, None);
    assert!(shared.new_config.is_none());
    let active = shared.active_config.as_ref().unwrap();
    assert_eq!(active.filters[0].params[2], 3_000);
}

/// A chunksize change is a device change: the run is torn down, the new
/// configuration waits in the pending slot, and the outer loop restarts.
#[test]
fn chunksize_change_triggers_restart() {
    let mut shared = shared_running();
    let newc = config(2048);
    let step = handle_reload(&mut shared, Some(newc));
    assert!(matches!(step.change, Some(ConfigChange::Devices)));
    assert_eq!(step.outcome, Some(ExitState::Restart));
    assert!(step.actions.stop_capture && step.actions.join_playback && step.actions.join_capture);
    assert!(!step.forward_to_pipeline);
    let pending = shared.new_config.as_ref().expect("new config parked");
    assert_eq!(pending.devices.chunksize, 2048);
    // The outer loop then starts a new run with the pending config.
    assert_eq!(after_run(&mut shared, RunOutcome::Completed(ExitState::Restart), false), None);
    assert_eq!(wait_step(&mut shared, false), WaitDecision::StartRun);
    let rs = start_run(&mut shared).expect("restart with the new config");
    assert!(rs.is_starting);
    assert_eq!(shared.active_config.as_ref().unwrap().devices.chunksize, 2048);
}

#[test]
fn unchanged_reload_only_clears_the_pending_slot() {
    let mut shared = shared_running();
    shared.signal_reload = true;
    let step = handle_reload(&mut shared, Some(config(1024)));
    assert!(matches!(step.change, Some(ConfigChange::NoChange)));
    assert!(!step.forward_to_pipeline);
    assert_eq!(step.outcome, None);
    assert!(!shared.signal_reload);
    assert!(shared.new_config.is_none());
}

#[test]
fn failed_load_leaves_the_run_alone() {
    let mut shared = shared_running();
    shared.signal_reload = true;
    // An invalid configuration sitting in the pending slot must not be
    // retried: a failed validation clears the slot and the run goes on.
    shared.new_config = Some(config(2048));
    let step = handle_reload(&mut shared, None);
    assert!(step.change.is_none());
    assert!(!step.forward_to_pipeline);
    assert_eq!(step.outcome, None);
    assert!(!shared.signal_reload);
    assert!(shared.new_config.is_none());
    assert!(shared.active_config.is_some());
    assert_eq!(shared.active_config.as_ref().unwrap().devices.chunksize, 1024);
}

/// An exit request under backpressure: capture is told to exit, both
/// workers are joined, and the process leaves with code 0.
#[test]
fn exit_request_joins_workers_and_exits_zero() {
    let mut shared = shared_running();
    shared.signal_exit = ExitRequest::Exit;
    let state = running_state();
    let step = handle_exit_request(&state, &mut shared);
    assert!(step.actions.stop_capture);
    assert!(step.actions.join_playback && step.actions.join_capture);
    assert_eq!(step.outcome, Some(ExitState::Exit));
    assert_eq!(shared.signal_exit, ExitRequest::NoRequest);
    assert!(shared.prev_config.is_some());
    assert_eq!(after_run(&mut shared, RunOutcome::Completed(ExitState::Exit), false), Some(EXIT_OK));
}

#[test]
fn stop_request_restarts_with_cleared_slots() {
    let mut shared = shared_running();
    shared.signal_exit = ExitRequest::Stop;
    shared.new_config = Some(config(2048));
    let state = running_state();
    let step = handle_exit_request(&state, &mut shared);
    assert_eq!(step.outcome, Some(ExitState::Restart));
    assert!(shared.new_config.is_none());
    assert!(shared.prev_config.is_some());
}

#[test]
fn exit_request_is_ignored_while_starting() {
    let mut shared = shared_running();
    shared.signal_exit = ExitRequest::Exit;
    let state = starting_state();
    let step = handle_exit_request(&state, &mut shared);
    assert_eq!(step.outcome, None);
    assert!(!step.actions.stop_capture);
    assert_eq!(shared.signal_exit, ExitRequest::Exit);
}

#[test]
fn wait_step_decisions() {
    // A pending config starts a run.
    let mut shared = shared_running();
    shared.new_config = Some(config(1024));
    assert_eq!(wait_step(&mut shared, true), WaitDecision::StartRun);
    // No config, not waiting, clean stop: exit 0.
    let mut shared = shared_running();
    shared.stop_reason = StopReason::Done;
    assert_eq!(wait_step(&mut shared, false), WaitDecision::ExitProgram(EXIT_OK));
    // No config, not waiting, after a device error: exit 102.
    let mut shared = shared_running();
    shared.stop_reason = StopReason::CaptureError("boom".to_string());
    assert_eq!(wait_step(&mut shared, false), WaitDecision::ExitProgram(EXIT_PROCESSING_ERROR));
    // Waiting and exit requested: exit 0.
    let mut shared = shared_running();
    shared.signal_exit = ExitRequest::Exit;
    assert_eq!(wait_step(&mut shared, true), WaitDecision::ExitProgram(EXIT_OK));
    // Waiting and reload requested: load, and the flag is consumed.
    let mut shared = shared_running();
    shared.signal_reload = true;
    assert_eq!(wait_step(&mut shared, true), WaitDecision::TryReload);
    assert!(!shared.signal_reload);
    // Nothing to do: keep waiting.
    assert_eq!(wait_step(&mut shared, true), WaitDecision::KeepWaiting);
}

#[test]
fn failed_run_exits_102_unless_waiting() {
    let mut shared = shared_running();
    assert_eq!(after_run(&mut shared, RunOutcome::Failed, false), Some(EXIT_PROCESSING_ERROR));
    assert!(shared.active_config.is_none());
    let mut shared = shared_running();
    assert_eq!(after_run(&mut shared, RunOutcome::Failed, true), None);
}

#[test]
fn reload_prefers_the_pending_config_over_the_file() {
    assert_eq!(select_config_source(true, true), ConfigSource::PendingConfig);
    assert_eq!(select_config_source(true, false), ConfigSource::PendingConfig);
    assert_eq!(select_config_source(false, true), ConfigSource::ConfigFile);
    assert_eq!(select_config_source(false, false), ConfigSource::NoSource);
}

#[test]
fn store_loaded_config_fills_the_pending_slot() {
    let mut shared = shared_running();
    store_loaded_config(&mut shared, Some(config(2048)));
    assert_eq!(shared.new_config.as_ref().unwrap().devices.chunksize, 2048);
    store_loaded_config(&mut shared, None);
    assert!(shared.new_config.is_some());
}
