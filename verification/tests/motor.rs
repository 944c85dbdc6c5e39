use rover_control::pwm::{duty_off_tick, Channel, RegisterWrite, LAST_TICK, PERIOD_TICKS, PRESCALE};
use rover_control::rover::{DCMotorDirection, Rover};

fn write(channel: Channel, off: u16) -> RegisterWrite {
    RegisterWrite { channel, on: 0, off }
}

#[test]
fn duty_off_tick_of_zero_is_zero() {
    assert_eq!(duty_off_tick(0), 0);
}

#[test]
fn duty_off_tick_exact_values() {
    assert_eq!(duty_off_tick(1), 40);
    assert_eq!(duty_off_tick(2), 81);
    assert_eq!(duty_off_tick(25), 1023);
    assert_eq!(duty_off_tick(50), 2047);
    assert_eq!(duty_off_tick(80), 3276);
    assert_eq!(duty_off_tick(99), 4054);
    assert_eq!(duty_off_tick(100), 4095);
}

#[test]
fn duty_off_tick_follows_the_rounding_formula() {
    for speed in 0u16..=100 {
        let exact = f64::from(speed) * 40.96 - 1.0;
        let expected = if exact < 0.0 { 0 } else { exact.round() as u16 };
        assert_eq!(duty_off_tick(speed), expected, "speed {}", speed);
    }
}

#[test]
fn duty_off_tick_agrees_with_single_precision_arithmetic() {
    for speed in 0u16..=100 {
        let expected = (f32::from(speed) * (4096f32 / 100f32) - 1f32).round() as u16;
        assert_eq!(duty_off_tick(speed), expected, "speed {}", speed);
    }
}

#[test]
fn duty_off_tick_above_full_speed_is_full_duty() {
    assert_eq!(duty_off_tick(101), 4095);
    assert_eq!(duty_off_tick(1000), 4095);
    assert_eq!(duty_off_tick(u16::MAX), 4095);
}

#[test]
fn duty_off_tick_never_falls_and_stays_inside_the_period() {
    let mut last = 0;
    for speed in 0u16..=200 {
        let off = duty_off_tick(speed);
        assert!(off >= last);
        assert!(off <= LAST_TICK);
        assert!(off < PERIOD_TICKS);
        last = off;
    }
}

#[test]
fn controller_constants() {
    assert_eq!(PERIOD_TICKS, 4096);
    assert_eq!(LAST_TICK, 4095);
    assert_eq!(PRESCALE, 240);
}

#[test]
fn run_left_forward_at_half_speed() {
    let mut rover = Rover::new();
    let writes = rover.left_motor.set_speed(50, DCMotorDirection::Forward);
    assert_eq!(
        writes,
        vec![write(Channel::C5, 2047), write(Channel::C3, 4095), write(Channel::C4, 0)]
    );
    assert_eq!(rover.left_motor.speed(), 50);
    assert_eq!(rover.left_motor.direction(), Some(DCMotorDirection::Forward));
}

#[test]
fn run_right_backward_at_full_speed() {
    let mut rover = Rover::new();
    let writes = rover.right_motor.set_speed(100, DCMotorDirection::Backward);
    assert_eq!(
        writes,
        vec![write(Channel::C0, 4095), write(Channel::C1, 0), write(Channel::C2, 4095)]
    );
    assert_eq!(rover.right_motor.speed(), 100);
    assert_eq!(rover.right_motor.direction(), Some(DCMotorDirection::Backward));
}

#[test]
fn run_at_speed_zero_still_sets_the_direction() {
    let mut rover = Rover::new();
    let writes = rover.right_motor.set_speed(0, DCMotorDirection::Forward);
    assert_eq!(
        writes,
        vec![write(Channel::C0, 0), write(Channel::C1, 4095), write(Channel::C2, 0)]
    );
    assert_eq!(rover.right_motor.direction(), Some(DCMotorDirection::Forward));
}

#[test]
fn speed_above_full_counts_as_full() {
    let mut rover = Rover::new();
    let writes = rover.left_motor.set_speed(300, DCMotorDirection::Forward);
    assert_eq!(writes[0], write(Channel::C5, 4095));
    assert_eq!(rover.left_motor.speed(), 100);
}

#[test]
fn direction_channels_are_never_both_high() {
    let mut rover = Rover::new();
    for direction in [DCMotorDirection::Forward, DCMotorDirection::Backward] {
        for speed in [0u16, 1, 50, 100, 101] {
            let writes = rover.left_motor.set_speed(speed, direction);
            assert_eq!(writes.len(), 3);
            let levels = (writes[1].off, writes[2].off);
            assert!(levels == (4095, 0) || levels == (0, 4095));
            assert!(writes.iter().all(|w| w.on == 0));
        }
    }
}

#[test]
fn stop_writes_zero_duty_whatever_the_direction() {
    for direction in [DCMotorDirection::Forward, DCMotorDirection::Backward] {
        let mut rover = Rover::new();
        rover.right_motor.set_speed(70, direction);
        let writes = rover.right_motor.stop();
        assert_eq!(writes, vec![write(Channel::C0, 0)]);
        assert_eq!(rover.right_motor.speed(), 0);
        assert_eq!(rover.right_motor.direction(), Some(direction));
    }
}

#[test]
fn stop_before_any_command() {
    let mut rover = Rover::new();
    assert_eq!(rover.left_motor.stop(), vec![write(Channel::C5, 0)]);
    assert_eq!(rover.left_motor.direction(), None);
}

#[test]
fn new_rover_is_idle() {
    let rover = Rover::new();
    assert_eq!(rover.right_motor.speed(), 0);
    assert_eq!(rover.left_motor.speed(), 0);
    assert_eq!(rover.right_motor.direction(), None);
    assert_eq!(rover.left_motor.direction(), None);
}

#[test]
fn rover_stop_stops_right_then_left() {
    let mut rover = Rover::new();
    rover.right_motor.set_speed(80, DCMotorDirection::Forward);
    rover.left_motor.set_speed(30, DCMotorDirection::Backward);
    let writes = rover.stop();
    assert_eq!(writes, vec![write(Channel::C0, 0), write(Channel::C5, 0)]);
    assert_eq!(rover.right_motor.speed(), 0);
    assert_eq!(rover.left_motor.speed(), 0);
    assert_eq!(rover.right_motor.direction(), Some(DCMotorDirection::Forward));
    assert_eq!(rover.left_motor.direction(), Some(DCMotorDirection::Backward));
}

#[test]
fn motors_share_no_channel() {
    let mut rover = Rover::new();
    let mut channels: Vec<Channel> = Vec::new();
    for w in rover.right_motor.set_speed(10, DCMotorDirection::Forward) {
        channels.push(w.channel);
    }
    for w in rover.left_motor.set_speed(10, DCMotorDirection::Forward) {
        channels.push(w.channel);
    }
    for i in 0..channels.len() {
        for j in 0..i {
            assert_ne!(channels[i], channels[j]);
        }
    }
}
