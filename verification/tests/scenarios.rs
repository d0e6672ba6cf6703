//! End-to-end scenarios over the coordinator core: the control surface
//! handlers, the orchestrator loop and the relay, driven sequentially.

use run_in_roblox::messages::{
    Message, OutputLevel, RobloxEvent, RobloxMessage, StartMessage, StatusMessage, StopMessage,
};
use run_in_roblox::orchestrator::{LoopEvent, Orchestrator, RunState};
use run_in_roblox::place_runner::PlaceRunner;
use run_in_roblox::relay::{final_exit_code, LogChannel, Relay, RunEnding};
use run_in_roblox::service::{ApiError, Svc};

fn output(level: OutputLevel, body: &str, server: &str) -> RobloxMessage {
    RobloxMessage::Output { level, body: body.to_string(), server: server.to_string() }
}

/// Drives the orchestrator over every pending bus message, forwarding
/// output into `relay_buf`; returns whether the loop would go on.
fn pump(orch: &mut Orchestrator, svc: &mut Svc, now: u64, relay_buf: &mut Vec<RobloxMessage>) -> bool {
    while let Some(msg) = svc.recv() {
        if !orch.step(svc, LoopEvent::Bus(msg), now, relay_buf) {
            return false;
        }
    }
    true
}

#[test]
fn start_then_drain_returns_the_run_script_once() {
    let mut svc = Svc::new();
    let mut orch = Orchestrator::new("print('hi')".to_string(), false);
    let mut relay_buf = Vec::new();

    let start = StartMessage { server: "abc1234xyz".to_string() };
    assert_eq!(svc.start_handler(&start, 0), Ok(()));
    assert!(pump(&mut orch, &mut svc, 0, &mut relay_buf));

    let id = "abc1234xyz".to_string();
    let events = svc.events_handler(Some(&id)).unwrap();
    assert_eq!(
        events,
        vec![RobloxEvent::RunScript { script: "print('hi')".to_string(), oneshot: false }]
    );
    // A subsequent drain returns the empty list.
    assert_eq!(svc.events_handler(Some(&id)), Ok(vec![]));
}

#[test]
fn single_shot_stop_terminates_with_flagged_exit_code() {
    let mut svc = Svc::new();
    let mut orch = Orchestrator::new("work()".to_string(), true);
    let mut relay = Relay::new();
    let mut relay_buf = Vec::new();

    let start = StartMessage { server: "s1".to_string() };
    assert_eq!(svc.start_handler(&start, 0), Ok(()));
    let stop = StopMessage { server: "s1".to_string() };
    assert_eq!(svc.stop_handler(&stop), Ok(()));

    // In single-shot mode the stop report breaks the loop.
    assert!(!pump(&mut orch, &mut svc, 0, &mut relay_buf));
    assert_eq!(orch.state, RunState::Terminating);
    orch.finish(&mut svc);
    assert_eq!(orch.state, RunState::Stopped);
    // The control surface now reports the shutdown to its callers.
    assert_eq!(svc.stop_handler(&stop), Err(ApiError::BusClosed));

    for msg in &relay_buf {
        relay.process(msg);
    }
    // No script error was reported: exit code 0.
    assert_eq!(final_exit_code(&RunEnding::Completed { failed: relay.failed }), 0);
    assert_eq!(relay.exit_code(), 0);
}

#[test]
fn single_shot_stop_after_script_error_exits_with_one() {
    let mut svc = Svc::new();
    let mut orch = Orchestrator::new("work()".to_string(), true);
    let mut relay = Relay::new();
    let mut relay_buf = Vec::new();

    let reports = vec![output(OutputLevel::ScriptError, "boom", "s1")];
    assert_eq!(svc.messages_handler(reports), Ok(()));
    let stop = StopMessage { server: "s1".to_string() };
    assert_eq!(svc.stop_handler(&stop), Ok(()));

    assert!(!pump(&mut orch, &mut svc, 0, &mut relay_buf));
    for msg in &relay_buf {
        relay.process(msg);
    }
    assert!(relay.failed);
    assert_eq!(final_exit_code(&RunEnding::Completed { failed: relay.failed }), 1);
}

#[test]
fn script_error_report_sets_the_failure_flag() {
    let mut svc = Svc::new();
    let mut orch = Orchestrator::new("x".to_string(), false);
    let mut relay = Relay::new();
    let mut relay_buf = Vec::new();

    let reports = vec![output(OutputLevel::ScriptError, "boom", "s1")];
    assert_eq!(svc.messages_handler(reports), Ok(()));
    assert!(pump(&mut orch, &mut svc, 0, &mut relay_buf));
    assert_eq!(relay_buf, vec![output(OutputLevel::ScriptError, "boom", "s1")]);
    for msg in &relay_buf {
        assert_eq!(relay.process(msg), LogChannel::Error);
    }
    assert!(relay.failed);

    // An identical later run without any script error leaves the flag
    // unset.
    let mut svc2 = Svc::new();
    let mut orch2 = Orchestrator::new("x".to_string(), false);
    let mut relay2 = Relay::new();
    let mut relay_buf2 = Vec::new();
    let reports2 = vec![output(OutputLevel::Print, "all good", "s1")];
    assert_eq!(svc2.messages_handler(reports2), Ok(()));
    assert!(pump(&mut orch2, &mut svc2, 0, &mut relay_buf2));
    for msg in &relay_buf2 {
        relay2.process(msg);
    }
    assert!(!relay2.failed);
    assert_eq!(final_exit_code(&RunEnding::Completed { failed: relay2.failed }), 0);
}

#[test]
fn outputs_are_relayed_in_report_order() {
    let mut svc = Svc::new();
    let mut orch = Orchestrator::new("x".to_string(), false);
    let mut relay_buf = Vec::new();

    let first = vec![
        output(OutputLevel::Print, "one", "s1"),
        output(OutputLevel::Warning, "two", "s1"),
    ];
    let second = vec![output(OutputLevel::Error, "three", "s1")];
    assert_eq!(svc.messages_handler(first.clone()), Ok(()));
    assert_eq!(svc.messages_handler(second.clone()), Ok(()));
    assert!(pump(&mut orch, &mut svc, 0, &mut relay_buf));

    let mut expected = first;
    expected.extend(second);
    assert_eq!(relay_buf, expected);
}

#[test]
fn ping_unknown_id_and_missing_param_fail_as_specified() {
    let mut svc = Svc::new();
    let unknown = "unknown-id".to_string();
    let r = svc.ping(Some(&unknown), 0);
    assert_eq!(r, Err(ApiError::UnknownId));
    assert_eq!(ApiError::UnknownId.status_code(), 422);

    let r = svc.ping(None, 0);
    assert_eq!(r, Err(ApiError::MissingParam));
    assert_eq!(ApiError::MissingParam.status_code(), 400);
}

#[test]
fn ping_known_id_succeeds_and_refreshes() {
    let mut svc = Svc::new();
    svc.create_server("s1".to_string(), 0);
    let id = "s1".to_string();
    assert_eq!(svc.ping(Some(&id), 5), Ok(()));
    // The heartbeat reset the deadline: still live well past the first
    // liveness budget.
    assert!(!svc.instances.evict_stale(&id, 14));
    assert!(svc.instances.contains(&id));
}

#[test]
fn events_for_unknown_id_is_not_found() {
    let mut svc = Svc::new();
    let unknown = "unknown-id".to_string();
    assert_eq!(svc.events_handler(Some(&unknown)), Err(ApiError::NotFound));
    assert_eq!(ApiError::NotFound.status_code(), 404);
    assert_eq!(svc.events_handler(None), Err(ApiError::MissingParam));
}

#[test]
fn handlers_report_shutdown_with_bus_closed() {
    let mut svc = Svc::new();
    svc.stop();
    let start = StartMessage { server: "s1".to_string() };
    assert_eq!(svc.start_handler(&start, 0), Err(ApiError::BusClosed));
    assert_eq!(ApiError::BusClosed.status_code(), 500);
    assert_eq!(svc.messages_handler(vec![]), Err(ApiError::BusClosed));
}

#[test]
fn status_and_root_report_liveness() {
    let svc = Svc::new();
    assert_eq!(svc.status_handler(), StatusMessage { run: true });
    assert_eq!(svc.root(), "OK!");
}

#[test]
fn exit_signal_terminates_regardless_of_pending_messages() {
    let mut svc = Svc::new();
    let mut orch = Orchestrator::new("x".to_string(), false);
    let mut relay_buf = Vec::new();
    assert_eq!(svc.messages_handler(vec![output(OutputLevel::Print, "pending", "s1")]), Ok(()));
    // The exit signal wins over the pending report; it is discarded.
    assert!(!orch.step(&mut svc, LoopEvent::Exit, 0, &mut relay_buf));
    assert_eq!(orch.state, RunState::Terminating);
    assert!(relay_buf.is_empty());
    orch.finish(&mut svc);
    assert_eq!(orch.state, RunState::Stopped);
}

#[test]
fn exit_codes_per_ending() {
    assert_eq!(final_exit_code(&RunEnding::Completed { failed: false }), 0);
    assert_eq!(final_exit_code(&RunEnding::Completed { failed: true }), 1);
    assert_eq!(final_exit_code(&RunEnding::RunnerError), 1);
    assert_eq!(final_exit_code(&RunEnding::RelayExited), 1);
    assert_eq!(final_exit_code(&RunEnding::Interrupted { failed: false }), 0);
    assert_eq!(final_exit_code(&RunEnding::Interrupted { failed: true }), 1);
    assert_eq!(final_exit_code(&RunEnding::StartupError), 2);
}

#[test]
fn severity_maps_to_log_channel() {
    let mut relay = Relay::new();
    assert_eq!(relay.process(&output(OutputLevel::Print, "m", "s")), LogChannel::Info);
    assert_eq!(relay.process(&output(OutputLevel::Info, "m", "s")), LogChannel::Info);
    assert_eq!(relay.process(&output(OutputLevel::Warning, "m", "s")), LogChannel::Warn);
    assert_eq!(relay.process(&output(OutputLevel::Error, "m", "s")), LogChannel::Error);
    assert!(!relay.failed);
    assert_eq!(relay.process(&output(OutputLevel::ScriptError, "m", "s")), LogChannel::Error);
    assert!(relay.failed);
}

fn runner(team_test: bool) -> PlaceRunner {
    PlaceRunner {
        port: 7777,
        script: "print('hi')".to_string(),
        place_file: Some("place.rbxl".to_string()),
        universe_id: Some(456),
        place_id: Some(123),
        creator_id: Some(789),
        creator_type: Some(1),
        no_launch: false,
        oneshot: false,
        team_test,
    }
}

#[test]
fn studio_args_for_team_test() {
    let args = runner(true).studio_args();
    assert_eq!(args, vec!["-task", "StartTeamTest", "-placeId", "123", "-universeId", "456"]);
}

#[test]
fn studio_args_for_server_run() {
    let args = runner(false).studio_args();
    assert_eq!(
        args,
        vec![
            "-task",
            "StartServer",
            "-placeId",
            "123",
            "-universeId",
            "456",
            "-creatorId",
            "789",
            "-creatorType",
            "1",
            "-numtestserverplayersuponstartup",
            "0",
        ]
    );
}
