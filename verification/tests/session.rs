use rover_control::command::{DecodeErrorKind, RoverCommand, RoverMotorId};
use rover_control::pwm::{Channel, RegisterWrite};
use rover_control::rover::{DCMotorDirection, Rover};
use rover_control::session::{apply_command, handle_message, Session, SessionAction, SessionEvent, SessionState};

fn write(channel: Channel, off: u16) -> RegisterWrite {
    RegisterWrite { channel, on: 0, off }
}

fn frame(text: &str) -> SessionEvent {
    SessionEvent::Frame(text.to_string())
}

fn final_stop() -> SessionAction {
    SessionAction::Stop(vec![write(Channel::C0, 0), write(Channel::C5, 0)])
}

fn endings() -> Vec<SessionEvent> {
    vec![
        SessionEvent::Close,
        SessionEvent::Exhausted,
        SessionEvent::TransportError,
        SessionEvent::Interrupt,
        SessionEvent::WriteFailed,
    ]
}

#[test]
fn motor_run_frame_sets_the_left_motor() {
    let mut rover = Rover::new();
    let writes =
        handle_message(r#"{"MotorRun":{"motor":"Left","direction":"Forward","speed":50}}"#, &mut rover)
            .unwrap();
    assert_eq!(
        writes,
        vec![write(Channel::C5, 2047), write(Channel::C3, 4095), write(Channel::C4, 0)]
    );
    assert_eq!(rover.left_motor.speed(), 50);
    assert_eq!(rover.left_motor.direction(), Some(DCMotorDirection::Forward));
    assert_eq!(rover.right_motor.speed(), 0);
    assert_eq!(rover.right_motor.direction(), None);
}

#[test]
fn motor_stop_frame_leaves_the_direction_channels_alone() {
    let mut rover = Rover::new();
    rover.right_motor.set_speed(60, DCMotorDirection::Backward);
    rover.left_motor.set_speed(40, DCMotorDirection::Forward);
    let writes = handle_message(r#"{"MotorStop":{"motor":"Right"}}"#, &mut rover).unwrap();
    assert_eq!(writes, vec![write(Channel::C0, 0)]);
    assert_eq!(rover.right_motor.speed(), 0);
    assert_eq!(rover.right_motor.direction(), Some(DCMotorDirection::Backward));
    assert_eq!(rover.left_motor.speed(), 40);
    assert_eq!(rover.left_motor.direction(), Some(DCMotorDirection::Forward));
}

#[test]
fn frame_that_is_not_json_changes_nothing() {
    let mut rover = Rover::new();
    rover.right_motor.set_speed(60, DCMotorDirection::Backward);
    rover.left_motor.set_speed(40, DCMotorDirection::Forward);
    let error = handle_message("not valid json", &mut rover).unwrap_err();
    assert_eq!(error.kind, DecodeErrorKind::Malformed);
    assert_eq!(error.text, "not valid json");
    assert_eq!(rover.right_motor.speed(), 60);
    assert_eq!(rover.right_motor.direction(), Some(DCMotorDirection::Backward));
    assert_eq!(rover.left_motor.speed(), 40);
    assert_eq!(rover.left_motor.direction(), Some(DCMotorDirection::Forward));
}

#[test]
fn refused_frame_keeps_the_session_active() {
    let mut rover = Rover::new();
    let mut session = Session::open();
    session.on_event(&mut rover, frame(r#"{"MotorRun":{"motor":"Left","direction":"Forward","speed":50}}"#));
    for text in ["not valid json", r#"{"Jump":{}}"#, r#"{"MotorStop":{"motor":"Top"}}"#] {
        let action = session.on_event(&mut rover, frame(text));
        match action {
            SessionAction::Reject(error) => assert_eq!(error.text, text),
            other => panic!("expected a refusal, got {:?}", other),
        }
        assert_eq!(session.state(), SessionState::Active);
        assert_eq!(rover.left_motor.speed(), 50);
        assert_eq!(rover.left_motor.direction(), Some(DCMotorDirection::Forward));
    }
}

#[test]
fn apply_command_addresses_the_named_motor() {
    let mut rover = Rover::new();
    let writes = apply_command(
        RoverCommand::MotorRun { motor: RoverMotorId::Right, direction: DCMotorDirection::Backward, speed: 25 },
        &mut rover,
    );
    assert_eq!(
        writes,
        vec![write(Channel::C0, 1023), write(Channel::C1, 0), write(Channel::C2, 4095)]
    );
    let writes = apply_command(RoverCommand::MotorStop { motor: RoverMotorId::Left }, &mut rover);
    assert_eq!(writes, vec![write(Channel::C5, 0)]);
    assert_eq!(rover.right_motor.speed(), 25);
}

#[test]
fn session_starts_open_and_becomes_active_with_the_first_frame() {
    let mut rover = Rover::new();
    let mut session = Session::open();
    assert_eq!(session.state(), SessionState::Open);
    let action =
        session.on_event(&mut rover, frame(r#"{"MotorRun":{"motor":"Right","direction":"Forward","speed":80}}"#));
    assert_eq!(
        action,
        SessionAction::Write(vec![write(Channel::C0, 3276), write(Channel::C1, 4095), write(Channel::C2, 0)])
    );
    assert_eq!(session.state(), SessionState::Active);
}

#[test]
fn abrupt_transport_error_still_stops_both_motors() {
    let mut rover = Rover::new();
    let mut session = Session::open();
    session.on_event(&mut rover, frame(r#"{"MotorRun":{"motor":"Right","direction":"Forward","speed":80}}"#));
    assert_eq!(rover.right_motor.speed(), 80);
    let action = session.on_event(&mut rover, SessionEvent::TransportError);
    assert_eq!(action, final_stop());
    assert_eq!(session.state(), SessionState::Closing);
    assert_eq!(rover.right_motor.speed(), 0);
    assert_eq!(rover.left_motor.speed(), 0);
    let action = session.on_event(&mut rover, SessionEvent::StopIssued);
    assert_eq!(action, SessionAction::Release);
    assert_eq!(session.state(), SessionState::Terminated);
}

#[test]
fn every_ending_of_an_active_session_issues_the_final_stop() {
    for ending in endings() {
        let mut rover = Rover::new();
        let mut session = Session::open();
        session.on_event(&mut rover, frame(r#"{"MotorRun":{"motor":"Left","direction":"Backward","speed":100}}"#));
        session.on_event(&mut rover, frame(r#"{"MotorRun":{"motor":"Right","direction":"Forward","speed":100}}"#));
        assert_eq!(session.on_event(&mut rover, ending), final_stop());
        assert_eq!(session.state(), SessionState::Closing);
        assert_eq!(rover.left_motor.speed(), 0);
        assert_eq!(rover.right_motor.speed(), 0);
    }
}

#[test]
fn every_ending_of_an_open_session_issues_the_final_stop() {
    for ending in endings() {
        let mut rover = Rover::new();
        let mut session = Session::open();
        assert_eq!(session.on_event(&mut rover, ending), final_stop());
        assert_eq!(session.state(), SessionState::Closing);
    }
}

#[test]
fn closing_session_applies_no_more_frames() {
    let mut rover = Rover::new();
    let mut session = Session::open();
    session.on_event(&mut rover, SessionEvent::Close);
    let action =
        session.on_event(&mut rover, frame(r#"{"MotorRun":{"motor":"Left","direction":"Forward","speed":50}}"#));
    assert_eq!(action, SessionAction::Nothing);
    assert_eq!(session.state(), SessionState::Closing);
    assert_eq!(rover.left_motor.speed(), 0);
    assert_eq!(session.on_event(&mut rover, SessionEvent::Interrupt), SessionAction::Nothing);
    assert_eq!(session.on_event(&mut rover, SessionEvent::Close), SessionAction::Nothing);
    assert_eq!(session.state(), SessionState::Closing);
}

#[test]
fn failed_final_stop_ends_the_session_too() {
    let mut rover = Rover::new();
    let mut session = Session::open();
    session.on_event(&mut rover, SessionEvent::Exhausted);
    assert_eq!(session.on_event(&mut rover, SessionEvent::WriteFailed), SessionAction::Release);
    assert_eq!(session.state(), SessionState::Terminated);
}

#[test]
fn terminated_session_accepts_nothing() {
    let mut rover = Rover::new();
    let mut session = Session::open();
    session.on_event(&mut rover, SessionEvent::Close);
    session.on_event(&mut rover, SessionEvent::StopIssued);
    assert_eq!(session.state(), SessionState::Terminated);
    let mut events = endings();
    events.push(SessionEvent::StopIssued);
    events.push(frame(r#"{"MotorRun":{"motor":"Left","direction":"Forward","speed":50}}"#));
    events.push(frame("not valid json"));
    for event in events {
        assert_eq!(session.on_event(&mut rover, event), SessionAction::Nothing);
        assert_eq!(session.state(), SessionState::Terminated);
        assert_eq!(rover.left_motor.speed(), 0);
        assert_eq!(rover.right_motor.speed(), 0);
    }
}

#[test]
fn stray_stop_report_is_ignored_while_active() {
    let mut rover = Rover::new();
    let mut session = Session::open();
    assert_eq!(session.on_event(&mut rover, SessionEvent::StopIssued), SessionAction::Nothing);
    assert_eq!(session.state(), SessionState::Open);
    session.on_event(&mut rover, frame(r#"{"MotorRun":{"motor":"Left","direction":"Forward","speed":50}}"#));
    assert_eq!(session.on_event(&mut rover, SessionEvent::StopIssued), SessionAction::Nothing);
    assert_eq!(session.state(), SessionState::Active);
    assert_eq!(rover.left_motor.speed(), 50);
}

#[test]
fn two_sessions_on_one_rover_leave_one_whole_command() {
    let first = r#"{"MotorRun":{"motor":"Left","direction":"Forward","speed":30}}"#;
    let second = r#"{"MotorRun":{"motor":"Left","direction":"Backward","speed":90}}"#;
    for (earlier, later, speed, direction) in [
        (first, second, 90, DCMotorDirection::Backward),
        (second, first, 30, DCMotorDirection::Forward),
    ] {
        let mut rover = Rover::new();
        let mut one = Session::open();
        let mut other = Session::open();
        let mut performed: Vec<RegisterWrite> = Vec::new();
        if let SessionAction::Write(writes) = one.on_event(&mut rover, frame(earlier)) {
            performed.extend(writes);
        }
        if let SessionAction::Write(writes) = other.on_event(&mut rover, frame(later)) {
            performed.extend(writes);
        }
        assert_eq!(rover.left_motor.speed(), speed);
        assert_eq!(rover.left_motor.direction(), Some(direction));
        let mut registers: [Option<u16>; 3] = [None, None, None];
        for w in performed {
            match w.channel {
                Channel::C5 => registers[0] = Some(w.off),
                Channel::C3 => registers[1] = Some(w.off),
                Channel::C4 => registers[2] = Some(w.off),
                other => panic!("write to channel {:?}", other),
            }
        }
        let expected = if direction == DCMotorDirection::Forward {
            [Some(1228), Some(4095), Some(0)]
        } else {
            [Some(3685), Some(0), Some(4095)]
        };
        assert_eq!(registers, expected);
    }
}

#[test]
fn ending_one_session_stops_the_shared_rover() {
    let mut rover = Rover::new();
    let mut one = Session::open();
    let mut other = Session::open();
    one.on_event(&mut rover, frame(r#"{"MotorRun":{"motor":"Left","direction":"Forward","speed":30}}"#));
    other.on_event(&mut rover, frame(r#"{"MotorRun":{"motor":"Right","direction":"Forward","speed":30}}"#));
    assert_eq!(one.on_event(&mut rover, SessionEvent::Close), final_stop());
    assert_eq!(rover.left_motor.speed(), 0);
    assert_eq!(rover.right_motor.speed(), 0);
    assert_eq!(other.state(), SessionState::Active);
}

fn event_number(n: usize) -> SessionEvent {
    match n {
        0 => frame(r#"{"MotorRun":{"motor":"Left","direction":"Forward","speed":70}}"#),
        1 => frame(r#"{"MotorRun":{"motor":"Right","direction":"Backward","speed":20}}"#),
        2 => frame("not valid json"),
        3 => SessionEvent::Close,
        4 => SessionEvent::Exhausted,
        5 => SessionEvent::TransportError,
        6 => SessionEvent::Interrupt,
        7 => SessionEvent::WriteFailed,
        _ => SessionEvent::StopIssued,
    }
}

#[test]
fn no_run_of_events_leaves_a_session_without_a_final_stop() {
    let kinds = 9usize;
    let length = 4u32;
    for code in 0..kinds.pow(length) {
        let mut rover = Rover::new();
        let mut session = Session::open();
        let mut stops = 0;
        let mut rest = code;
        for _ in 0..length {
            let action = session.on_event(&mut rover, event_number(rest % kinds));
            rest /= kinds;
            match action {
                SessionAction::Stop(writes) => {
                    assert_eq!(stops, 0);
                    assert_eq!(writes, vec![write(Channel::C0, 0), write(Channel::C5, 0)]);
                    stops += 1;
                }
                SessionAction::Write(_) | SessionAction::Reject(_) => assert_eq!(stops, 0),
                SessionAction::Release | SessionAction::Nothing => {}
            }
            let left = matches!(session.state(), SessionState::Closing | SessionState::Terminated);
            assert_eq!(left, stops == 1);
            if left {
                assert_eq!(rover.right_motor.speed(), 0);
                assert_eq!(rover.left_motor.speed(), 0);
            }
        }
    }
}

#[test]
fn registers_show_what_was_commanded() {
    let commands = [
        RoverCommand::MotorRun { motor: RoverMotorId::Left, direction: DCMotorDirection::Forward, speed: 10 },
        RoverCommand::MotorRun { motor: RoverMotorId::Right, direction: DCMotorDirection::Backward, speed: 90 },
        RoverCommand::MotorStop { motor: RoverMotorId::Left },
        RoverCommand::MotorRun { motor: RoverMotorId::Left, direction: DCMotorDirection::Backward, speed: 200 },
        RoverCommand::MotorStop { motor: RoverMotorId::Right },
        RoverCommand::MotorRun { motor: RoverMotorId::Right, direction: DCMotorDirection::Forward, speed: 1 },
    ];
    let mut rover = Rover::new();
    let mut registers: Vec<Option<(u16, u16)>> = vec![None; 16];
    let index = |channel: Channel| match channel {
        Channel::C0 => 0,
        Channel::C1 => 1,
        Channel::C2 => 2,
        Channel::C3 => 3,
        Channel::C4 => 4,
        Channel::C5 => 5,
        other => panic!("write to channel {:?}", other),
    };
    let level = |high: bool| if high { 4095 } else { 0 };
    for (count, command) in commands.into_iter().enumerate() {
        for w in apply_command(command, &mut rover) {
            registers[index(w.channel)] = Some((w.on, w.off));
        }
        if count == 0 {
            continue;
        }
        let right = &rover.right_motor;
        let left = &rover.left_motor;
        let expected = [
            (0, rover_control::pwm::duty_off_tick(right.speed())),
            (0, level(right.direction() == Some(DCMotorDirection::Forward))),
            (0, level(right.direction() == Some(DCMotorDirection::Backward))),
            (0, level(left.direction() == Some(DCMotorDirection::Forward))),
            (0, level(left.direction() == Some(DCMotorDirection::Backward))),
            (0, rover_control::pwm::duty_off_tick(left.speed())),
        ];
        for channel in 0..6 {
            assert_eq!(registers[channel], Some(expected[channel]), "channel {}", channel);
        }
        assert!(registers[6..].iter().all(|register| register.is_none()));
    }
    assert_eq!(registers[0], Some((0, 40)));
    assert_eq!(registers[5], Some((0, 4095)));
}
