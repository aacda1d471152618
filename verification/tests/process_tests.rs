use process_dashboard::config::{load_config, ProcessConfig};
use process_dashboard::process::{
    spawn_process, ProcessCommand, ProcessSession, SessionAction, SessionState,
    COMMAND_INBOX_CAPACITY, OUTPUT_CHANNEL_CAPACITY, STOP_GRACE_MILLIS,
};

fn descriptor(name: &str) -> ProcessConfig {
    ProcessConfig {
        name: name.to_string(),
        command: name.to_string(),
        args: Vec::new(),
        cwd: "/tmp".to_string(),
    }
}

fn descriptors(count: usize) -> Vec<ProcessConfig> {
    (0..count).map(|i| descriptor(&format!("proc-{}", i))).collect()
}

#[test]
fn channel_sizes_and_grace_period() {
    assert_eq!(COMMAND_INBOX_CAPACITY, 10);
    assert_eq!(OUTPUT_CHANNEL_CAPACITY, 100);
    assert_eq!(STOP_GRACE_MILLIS, 200);
}

#[test]
fn a_new_session_is_idle_and_keeps_its_descriptor() {
    let session = ProcessSession::new(descriptor("tick"));
    assert_eq!(session.state(), SessionState::Idle);
    assert!(!session.is_running());
    assert_eq!(session.descriptor(), &descriptor("tick"));
}

#[test]
fn start_on_idle_asks_for_a_spawn_and_runs_once_reported() {
    let mut session = ProcessSession::new(descriptor("tick"));
    assert_eq!(session.handle(ProcessCommand::Start), SessionAction::Spawn);
    assert_eq!(session.state(), SessionState::Idle);
    session.spawned(Some(4242));
    assert_eq!(session.state(), SessionState::Running { group: Some(4242) });
    assert!(session.is_running());
}

#[test]
fn a_second_start_spawns_nothing() {
    let mut session = ProcessSession::new(descriptor("tick"));
    assert_eq!(session.handle(ProcessCommand::Start), SessionAction::Spawn);
    session.spawned(Some(7));
    assert_eq!(session.handle(ProcessCommand::Start), SessionAction::Nothing);
    assert_eq!(session.handle(ProcessCommand::Start), SessionAction::Nothing);
    assert_eq!(session.state(), SessionState::Running { group: Some(7) });
}

#[test]
fn stop_kills_the_recorded_group_and_leaves_idle() {
    let mut session = ProcessSession::new(descriptor("tick"));
    session.handle(ProcessCommand::Start);
    session.spawned(Some(99));
    assert_eq!(session.handle(ProcessCommand::Stop), SessionAction::Kill { group: Some(99) });
    assert_eq!(session.state(), SessionState::Idle);
    assert_eq!(session.handle(ProcessCommand::Stop), SessionAction::Nothing);
}

#[test]
fn stop_without_a_group_kills_the_child_alone() {
    let mut session = ProcessSession::new(descriptor("tick"));
    session.handle(ProcessCommand::Start);
    session.spawned(None);
    assert_eq!(session.handle(ProcessCommand::Stop), SessionAction::Kill { group: None });
    assert_eq!(session.state(), SessionState::Idle);
}

#[test]
fn a_closed_inbox_stops_the_session() {
    let mut session = ProcessSession::new(descriptor("tick"));
    session.handle(ProcessCommand::Start);
    session.spawned(Some(31));
    assert_eq!(session.inbox_closed(), SessionAction::Kill { group: Some(31) });
    assert_eq!(session.state(), SessionState::Idle);
    assert_eq!(session.inbox_closed(), SessionAction::Nothing);
}

#[test]
fn stop_on_idle_does_nothing() {
    let mut session = ProcessSession::new(descriptor("tick"));
    assert_eq!(session.handle(ProcessCommand::Stop), SessionAction::Nothing);
    assert_eq!(session.state(), SessionState::Idle);
}

#[test]
fn a_stopped_session_can_be_started_again() {
    let mut session = ProcessSession::new(descriptor("tick"));
    session.handle(ProcessCommand::Start);
    session.spawned(Some(1));
    session.handle(ProcessCommand::Stop);
    assert_eq!(session.handle(ProcessCommand::Start), SessionAction::Spawn);
    session.spawned(Some(2));
    assert_eq!(session.state(), SessionState::Running { group: Some(2) });
}

#[test]
fn a_supervisor_holds_one_idle_session_for_each_descriptor() {
    for count in 1..=6usize {
        let config = load_config(descriptors(count)).unwrap();
        let manager = spawn_process(config);
        assert_eq!(manager.len(), count);
        for index in 0..count {
            assert_eq!(manager.session(index).state(), SessionState::Idle);
            assert_eq!(manager.session(index).descriptor(), &descriptors(count)[index]);
        }
    }
}

#[test]
fn every_session_runs_after_its_start_was_handled() {
    for count in 1..=6usize {
        let mut manager = spawn_process(load_config(descriptors(count)).unwrap());
        for index in 0..count {
            assert_eq!(manager.send(index, ProcessCommand::Start), SessionAction::Spawn);
            manager.spawned(index, Some(100 + index as u32));
        }
        for index in 0..count {
            assert_eq!(
                manager.session(index).state(),
                SessionState::Running { group: Some(100 + index as u32) }
            );
        }
    }
}

#[test]
fn a_command_reaches_its_session_only() {
    let mut manager = spawn_process(load_config(descriptors(3)).unwrap());
    for index in 0..3 {
        manager.send(index, ProcessCommand::Start);
        manager.spawned(index, Some(10 + index as u32));
    }
    assert_eq!(manager.send(1, ProcessCommand::Stop), SessionAction::Kill { group: Some(11) });
    assert_eq!(manager.session(0).state(), SessionState::Running { group: Some(10) });
    assert_eq!(manager.session(1).state(), SessionState::Idle);
    assert_eq!(manager.session(2).state(), SessionState::Running { group: Some(12) });
}

#[test]
fn a_command_for_no_session_changes_nothing() {
    let mut manager = spawn_process(load_config(descriptors(2)).unwrap());
    assert_eq!(manager.send(2, ProcessCommand::Start), SessionAction::Nothing);
    assert_eq!(manager.send(usize::MAX, ProcessCommand::Stop), SessionAction::Nothing);
    assert_eq!(manager.len(), 2);
    assert_eq!(manager.session(0).state(), SessionState::Idle);
    assert_eq!(manager.session(1).state(), SessionState::Idle);
}

#[test]
fn stop_all_stops_every_session_and_is_idempotent() {
    let mut manager = spawn_process(load_config(descriptors(3)).unwrap());
    manager.send(0, ProcessCommand::Start);
    manager.spawned(0, Some(50));
    manager.send(2, ProcessCommand::Start);
    manager.spawned(2, None);
    assert_eq!(
        manager.stop_all(),
        vec![
            SessionAction::Kill { group: Some(50) },
            SessionAction::Nothing,
            SessionAction::Kill { group: None },
        ]
    );
    for index in 0..3 {
        assert_eq!(manager.session(index).state(), SessionState::Idle);
    }
    assert_eq!(manager.stop_all(), vec![SessionAction::Nothing; 3]);
}

#[test]
fn sessions_are_given_away_in_order() {
    let mut manager = spawn_process(load_config(descriptors(2)).unwrap());
    manager.send(1, ProcessCommand::Start);
    manager.spawned(1, Some(5));
    let sessions = manager.into_sessions();
    assert_eq!(sessions.len(), 2);
    assert_eq!(sessions[0].descriptor().name, "proc-0");
    assert_eq!(sessions[0].state(), SessionState::Idle);
    assert_eq!(sessions[1].descriptor().name, "proc-1");
    assert_eq!(sessions[1].state(), SessionState::Running { group: Some(5) });
}
