//! The motor driver and the rover that owns a left and a right motor.
//!
//! Nothing here touches the bus. A motor keeps what was last commanded and answers each
//! command with the register writes that carry it out; whoever owns the controller
//! performs them, in order.

use crate::pwm::{
    duty_off_tick, duty_off_tick_spec, duty_write, level_off_tick_spec, level_write, perform,
    Channel, RegisterWrite, FULL_SPEED, LAST_TICK,
};
use vstd::prelude::*;

verus! {

/// The sense in which a motor turns.
#[derive(Clone, Copy, Debug, PartialEq, Eq, Structural)]
pub enum DCMotorDirection {
    Forward,
    Backward,
}

/// What a motor driver is, mathematically: its three channels and what was last
/// commanded on them.
pub struct MotorView {
    /// The channel whose duty cycle sets the speed.
    pub control: Channel,
    /// The channel that is high while the motor turns forward.
    pub forward: Channel,
    /// The channel that is high while the motor turns backward.
    pub backward: Channel,
    /// The speed last commanded, in percent.
    pub speed: u16,
    /// The direction last commanded, if any was.
    pub direction: Option<DCMotorDirection>,
}

impl MotorView {
    /// The three channels differ and the speed is a percentage.
    pub open spec fn wf(self) -> bool {
        &&& self.control != self.forward
        &&& self.control != self.backward
        &&& self.forward != self.backward
        &&& self.speed <= 100
    }

    /// Whether `channel` is one of the motor's three.
    pub open spec fn drives(self, channel: Channel) -> bool {
        channel == self.control || channel == self.forward || channel == self.backward
    }

    /// A motor on the given channels that has not been commanded yet.
    pub open spec fn idle(control: Channel, forward: Channel, backward: Channel) -> MotorView {
        MotorView { control, forward, backward, speed: 0, direction: None }
    }

    /// The motor after it was told to run. A speed above 100 counts as 100.
    pub open spec fn run(self, speed: u16, direction: DCMotorDirection) -> MotorView {
        MotorView {
            speed: if speed > 100 { 100 } else { speed },
            direction: Some(direction),
            ..self
        }
    }

    /// The motor after it was told to stop: the speed is 0, the direction stays.
    pub open spec fn halt(self) -> MotorView {
        MotorView { speed: 0, ..self }
    }

    /// The writes that make the motor run: the duty cycle first, then the forward
    /// channel, then the backward channel.
    pub open spec fn run_writes(self, speed: u16, direction: DCMotorDirection) -> Seq<
        RegisterWrite,
    > {
        seq![
            duty_write(self.control, speed as int),
            level_write(self.forward, direction == DCMotorDirection::Forward),
            level_write(self.backward, direction == DCMotorDirection::Backward),
        ]
    }

    /// The one write that stops the motor: a duty cycle of 0 on the control channel.
    pub open spec fn halt_writes(self) -> Seq<RegisterWrite> {
        seq![duty_write(self.control, 0)]
    }

    /// Whether `registers` hold, for each of the motor's channels, what was last
    /// commanded on it.
    pub open spec fn shown_by(self, registers: Map<Channel, (u16, u16)>) -> bool {
        &&& registers.contains_key(self.control)
        &&& registers[self.control] == (0u16, self.control_off_tick() as u16)
        &&& registers.contains_key(self.forward)
        &&& registers[self.forward] == (0u16, self.forward_off_tick() as u16)
        &&& registers.contains_key(self.backward)
        &&& registers[self.backward] == (0u16, self.backward_off_tick() as u16)
    }

    /// The off tick that the control channel was last set to.
    pub open spec fn control_off_tick(self) -> int {
        duty_off_tick_spec(self.speed as int)
    }

    /// The off tick that the forward channel was last set to.
    pub open spec fn forward_off_tick(self) -> int {
        level_off_tick_spec(self.direction == Some(DCMotorDirection::Forward))
    }

    /// The off tick that the backward channel was last set to.
    pub open spec fn backward_off_tick(self) -> int {
        level_off_tick_spec(self.direction == Some(DCMotorDirection::Backward))
    }
}

/// The driver of one DC motor behind three PWM channels.
#[derive(Debug)]
pub struct DCMotor {
    control: Channel,
    forward: Channel,
    backward: Channel,
    speed: u16,
    direction: Option<DCMotorDirection>,
}

impl View for DCMotor {
    type V = MotorView;

    closed spec fn view(&self) -> MotorView {
        MotorView {
            control: self.control,
            forward: self.forward,
            backward: self.backward,
            speed: self.speed,
            direction: self.direction,
        }
    }
}

impl DCMotor {
    #[verifier::type_invariant]
    spec fn inv(self) -> bool {
        self@.wf()
    }

    /// A motor on three different channels, not commanded yet.
    pub(crate) fn new(control: Channel, forward: Channel, backward: Channel) -> (motor: DCMotor)
        requires
            control != forward,
            control != backward,
            forward != backward,
        ensures
            motor@ == MotorView::idle(control, forward, backward),
    {
        DCMotor { control, forward, backward, speed: 0, direction: None }
    }

    /// The write that sets `channel` to a duty cycle of `pulse` percent.
    fn set_pwm_duty_cycle(channel: Channel, pulse: u16) -> (write: RegisterWrite)
        ensures
            write == duty_write(channel, pulse as int),
    {
        RegisterWrite { channel, on: 0, off: duty_off_tick(pulse) }
    }

    /// The write that sets `channel` fully on where `value` is 1, and fully off for any
    /// other value.
    fn set_level(channel: Channel, value: u16) -> (write: RegisterWrite)
        ensures
            write == level_write(channel, value == 1),
    {
        if value == 1 {
            RegisterWrite { channel, on: 0, off: LAST_TICK }
        } else {
            RegisterWrite { channel, on: 0, off: 0 }
        }
    }

    /// Commands a speed and a direction, and returns the writes to perform.
    pub fn set_speed(&mut self, speed: u16, direction: DCMotorDirection) -> (writes: Vec<
        RegisterWrite,
    >)
        ensures
            final(self)@ == old(self)@.run(speed, direction),
            writes@ == old(self)@.run_writes(speed, direction),
            final(self)@.wf(),
    {
        proof {
            use_type_invariant(&*self);
        }
        let mut writes = Vec::new();
        writes.push(Self::set_pwm_duty_cycle(self.control, speed));
        match direction {
            DCMotorDirection::Forward => {
                writes.push(Self::set_level(self.forward, 1));
                writes.push(Self::set_level(self.backward, 0));
            },
            DCMotorDirection::Backward => {
                writes.push(Self::set_level(self.forward, 0));
                writes.push(Self::set_level(self.backward, 1));
            },
        }
        self.speed = if speed > FULL_SPEED { FULL_SPEED } else { speed };
        self.direction = Some(direction);
        writes
    }

    /// Commands a duty cycle of 0 and leaves the direction channels as they are.
    pub fn stop(&mut self) -> (writes: Vec<RegisterWrite>)
        ensures
            final(self)@ == old(self)@.halt(),
            writes@ == old(self)@.halt_writes(),
            final(self)@.wf(),
    {
        proof {
            use_type_invariant(&*self);
        }
        let mut writes = Vec::new();
        writes.push(Self::set_pwm_duty_cycle(self.control, 0));
        self.speed = 0;
        writes
    }

    /// The speed last commanded, in percent.
    pub fn speed(&self) -> (speed: u16)
        ensures
            speed == self@.speed,
            speed <= 100,
    {
        proof {
            use_type_invariant(self);
        }
        self.speed
    }

    /// The direction last commanded, if any was.
    pub fn direction(&self) -> (direction: Option<DCMotorDirection>)
        ensures
            direction == self@.direction,
    {
        self.direction
    }
}

/// What a rover is, mathematically: its two motors.
pub struct RoverView {
    pub right: MotorView,
    pub left: MotorView,
}

impl RoverView {
    /// Both motors are well formed and share no channel.
    pub open spec fn wf(self) -> bool {
        &&& self.right.wf()
        &&& self.left.wf()
        &&& !self.left.drives(self.right.control)
        &&& !self.left.drives(self.right.forward)
        &&& !self.left.drives(self.right.backward)
    }

    /// The rover as it is built: the right motor on channels 0, 1 and 2, the left motor
    /// on channels 5, 3 and 4, neither commanded yet.
    pub open spec fn initial() -> RoverView {
        RoverView {
            right: MotorView::idle(Channel::C0, Channel::C1, Channel::C2),
            left: MotorView::idle(Channel::C5, Channel::C3, Channel::C4),
        }
    }

    /// The rover after both motors were told to stop.
    pub open spec fn stop(self) -> RoverView {
        RoverView { right: self.right.halt(), left: self.left.halt() }
    }

    /// The writes that stop both motors: the right motor's first, then the left motor's.
    pub open spec fn stop_writes(self) -> Seq<RegisterWrite> {
        self.right.halt_writes() + self.left.halt_writes()
    }

    /// Whether `registers` hold what was last commanded on each channel of both motors.
    pub open spec fn shown_by(self, registers: Map<Channel, (u16, u16)>) -> bool {
        self.right.shown_by(registers) && self.left.shown_by(registers)
    }

    /// Neither motor is commanded to move.
    pub open spec fn stopped(self) -> bool {
        self.right.speed == 0 && self.left.speed == 0
    }
}

/// A rover with a right and a left motor.
#[derive(Debug)]
pub struct Rover {
    pub right_motor: DCMotor,
    pub left_motor: DCMotor,
}

impl View for Rover {
    type V = RoverView;

    open spec fn view(&self) -> RoverView {
        RoverView { right: self.right_motor@, left: self.left_motor@ }
    }
}

impl Rover {
    /// Builds the rover with its fixed channel assignment.
    pub fn new() -> (rover: Rover)
        ensures
            rover@ == RoverView::initial(),
            rover@.wf(),
    {
        Rover {
            right_motor: DCMotor::new(Channel::C0, Channel::C1, Channel::C2),
            left_motor: DCMotor::new(Channel::C5, Channel::C3, Channel::C4),
        }
    }

    /// Stops both motors, the right one first, and returns the writes to perform.
    pub fn stop(&mut self) -> (writes: Vec<RegisterWrite>)
        ensures
            final(self)@ == old(self)@.stop(),
            final(self)@.stopped(),
            writes@ == old(self)@.stop_writes(),
    {
        let mut writes = self.right_motor.stop();
        let mut left = self.left_motor.stop();
        writes.append(&mut left);
        writes
    }
}

/// Every write that a motor asks for lies inside the period, whatever speed was
/// commanded.
pub proof fn lemma_writes_in_period(motor: MotorView, speed: u16, direction: DCMotorDirection)
    ensures
        forall|i: int|
            0 <= i < 3 ==> (#[trigger] motor.run_writes(speed, direction)[i]).in_period(),
        motor.halt_writes()[0].in_period(),
{
}

/// Running a motor sets its three registers to what was commanded, whatever they held
/// before, and touches no other channel.
pub proof fn lemma_run_sets_registers(
    motor: MotorView,
    speed: u16,
    direction: DCMotorDirection,
    registers: Map<Channel, (u16, u16)>,
)
    requires
        motor.wf(),
    ensures
        ({
            let after = perform(registers, motor.run_writes(speed, direction));
            let commanded = motor.run(speed, direction);
            &&& after.contains_key(motor.control)
            &&& after[motor.control] == (0u16, commanded.control_off_tick() as u16)
            &&& after.contains_key(motor.forward)
            &&& after[motor.forward] == (0u16, commanded.forward_off_tick() as u16)
            &&& after.contains_key(motor.backward)
            &&& after[motor.backward] == (0u16, commanded.backward_off_tick() as u16)
            &&& forall|channel: Channel|
                !motor.drives(channel) ==> after.contains_key(channel)
                    == registers.contains_key(channel) && after[channel] == registers[channel]
        }),
{
    let writes = motor.run_writes(speed, direction);
    let two = writes.drop_last();
    let one = two.drop_last();
    assert(one.drop_last().len() == 0);
    assert(perform(registers, one.drop_last()) == registers);
    assert(perform(registers, one) == registers.insert(
        motor.control,
        (writes[0].on, writes[0].off),
    ));
    assert(perform(registers, two) == perform(registers, one).insert(
        motor.forward,
        (writes[1].on, writes[1].off),
    ));
}

/// Stopping a motor sets the off tick of its control channel to 0, whichever direction
/// was commanded before, and touches no other channel: the direction channels keep what
/// they held.
pub proof fn lemma_stop_sets_registers(motor: MotorView, registers: Map<Channel, (u16, u16)>)
    ensures
        ({
            let after = perform(registers, motor.halt_writes());
            &&& after.contains_key(motor.control)
            &&& after[motor.control] == (0u16, 0u16)
            &&& motor.halt().control_off_tick() == 0
            &&& motor.halt().forward_off_tick() == motor.forward_off_tick()
            &&& motor.halt().backward_off_tick() == motor.backward_off_tick()
            &&& forall|channel: Channel|
                channel != motor.control ==> after.contains_key(channel)
                    == registers.contains_key(channel) && after[channel] == registers[channel]
        }),
{
    let writes = motor.halt_writes();
    assert(writes.drop_last().len() == 0);
    assert(perform(registers, writes.drop_last()) == registers);
}

/// The final stop reaches the registers: once its writes are performed, the control
/// channels of both motors are at off tick 0, and registers that showed the rover
/// before show the stopped rover after.
pub proof fn lemma_stop_reaches_registers(rover: RoverView, registers: Map<Channel, (u16, u16)>)
    ensures
        ({
            let after = perform(registers, rover.stop_writes());
            &&& after.contains_key(rover.right.control)
            &&& after[rover.right.control] == (0u16, 0u16)
            &&& after.contains_key(rover.left.control)
            &&& after[rover.left.control] == (0u16, 0u16)
            &&& rover.wf() && rover.shown_by(registers) ==> rover.stop().shown_by(after)
        }),
{
    let writes = rover.stop_writes();
    let one = writes.drop_last();
    assert(one.drop_last().len() == 0);
    assert(perform(registers, one.drop_last()) == registers);
    assert(perform(registers, one) == registers.insert(rover.right.control, (0u16, 0u16)));
}

} // verus!
