//! The session supervisor: what one connection does to the rover, and the guarantee
//! that a session never ends without a final stop of both motors.
//!
//! A session is a state machine. Whoever owns the connection feeds it one event at a
//! time, holding the rover exclusively for the length of the call, and carries out the
//! action that comes back before it feeds the next event.

use crate::command::{decode, decoded, DecodeError, DecodeErrorKind, RoverCommand, RoverMotorId};
use crate::pwm::{perform, Channel, RegisterWrite};
use crate::rover::{lemma_run_sets_registers, lemma_stop_sets_registers, Rover, RoverView};
use vstd::prelude::*;

verus! {

/// Where a session stands.
#[derive(Clone, Copy, Debug, PartialEq, Eq, Structural)]
pub enum SessionState {
    /// The connection stands and nothing has arrived yet.
    Open,
    /// Frames are being received and applied.
    Active,
    /// The final stop has been handed out and is being carried out.
    Closing,
    /// The session is over and accepts nothing more.
    Terminated,
}

/// What can happen to a session.
#[derive(Debug)]
pub enum SessionEvent {
    /// A text frame arrived.
    Frame(String),
    /// The peer sent a close frame.
    Close,
    /// The stream of frames ended.
    Exhausted,
    /// The transport failed.
    TransportError,
    /// The process was told to end.
    Interrupt,
    /// A register write that the session asked for failed.
    WriteFailed,
    /// The writes of the final stop were carried out.
    StopIssued,
}

/// What the owner of the connection has to do after an event.
#[derive(Debug, PartialEq, Eq)]
pub enum SessionAction {
    /// Perform these writes: a command was applied.
    Write(Vec<RegisterWrite>),
    /// Report this frame as refused. The rover was not touched.
    Reject(DecodeError),
    /// Perform these writes, the final stop, and report `StopIssued` or `WriteFailed`.
    Stop(Vec<RegisterWrite>),
    /// Let go of the rover: the session is over.
    Release,
    /// Nothing.
    Nothing,
}

/// An action as a mathematical value.
pub enum ActionView {
    Write(Seq<RegisterWrite>),
    Reject(DecodeErrorKind, Seq<char>),
    Stop(Seq<RegisterWrite>),
    Release,
    Nothing,
}

impl View for SessionAction {
    type V = ActionView;

    open spec fn view(&self) -> ActionView {
        match self {
            SessionAction::Write(writes) => ActionView::Write(writes@),
            SessionAction::Reject(error) => ActionView::Reject(error.kind, error.text@),
            SessionAction::Stop(writes) => ActionView::Stop(writes@),
            SessionAction::Release => ActionView::Release,
            SessionAction::Nothing => ActionView::Nothing,
        }
    }
}

impl SessionEvent {
    /// Whether the event takes command authority away: the connection is closed, ended
    /// or broken, the process is ending, or the hardware failed.
    pub open spec fn ends_session(self) -> bool {
        self is Close || self is Exhausted || self is TransportError || self is Interrupt
            || self is WriteFailed
    }
}

/// The rover after a command was applied to it.
pub open spec fn applied(rover: RoverView, command: RoverCommand) -> RoverView {
    match command {
        RoverCommand::MotorRun { motor: RoverMotorId::Right, direction, speed } => RoverView {
            right: rover.right.run(speed, direction),
            ..rover
        },
        RoverCommand::MotorRun { motor: RoverMotorId::Left, direction, speed } => RoverView {
            left: rover.left.run(speed, direction),
            ..rover
        },
        RoverCommand::MotorStop { motor: RoverMotorId::Right } => RoverView {
            right: rover.right.halt(),
            ..rover
        },
        RoverCommand::MotorStop { motor: RoverMotorId::Left } => RoverView {
            left: rover.left.halt(),
            ..rover
        },
    }
}

/// The writes that carry a command out.
pub open spec fn command_writes(rover: RoverView, command: RoverCommand) -> Seq<RegisterWrite> {
    match command {
        RoverCommand::MotorRun { motor: RoverMotorId::Right, direction, speed } => {
            rover.right.run_writes(speed, direction)
        },
        RoverCommand::MotorRun { motor: RoverMotorId::Left, direction, speed } => {
            rover.left.run_writes(speed, direction)
        },
        RoverCommand::MotorStop { motor: RoverMotorId::Right } => rover.right.halt_writes(),
        RoverCommand::MotorStop { motor: RoverMotorId::Left } => rover.left.halt_writes(),
    }
}

/// One step of a session: the state and the rover after `event`, and the action that
/// the event calls for.
pub open spec fn step(state: SessionState, rover: RoverView, event: SessionEvent) -> (
    SessionState,
    RoverView,
    ActionView,
) {
    match state {
        SessionState::Open | SessionState::Active => match event {
            SessionEvent::Frame(text) => match decoded(text@) {
                Ok(command) => (
                    SessionState::Active,
                    applied(rover, command),
                    ActionView::Write(command_writes(rover, command)),
                ),
                Err(kind) => (SessionState::Active, rover, ActionView::Reject(kind, text@)),
            },
            SessionEvent::StopIssued => (state, rover, ActionView::Nothing),
            _ => (SessionState::Closing, rover.stop(), ActionView::Stop(rover.stop_writes())),
        },
        SessionState::Closing => match event {
            SessionEvent::StopIssued | SessionEvent::WriteFailed => (
                SessionState::Terminated,
                rover,
                ActionView::Release,
            ),
            _ => (SessionState::Closing, rover, ActionView::Nothing),
        },
        SessionState::Terminated => (SessionState::Terminated, rover, ActionView::Nothing),
    }
}

/// Applies a command to the rover and returns the writes to perform.
pub fn apply_command(command: RoverCommand, rover: &mut Rover) -> (writes: Vec<RegisterWrite>)
    ensures
        final(rover)@ == applied(old(rover)@, command),
        writes@ == command_writes(old(rover)@, command),
{
    match command {
        RoverCommand::MotorRun { motor, direction, speed } => match motor {
            RoverMotorId::Right => rover.right_motor.set_speed(speed, direction),
            RoverMotorId::Left => rover.left_motor.set_speed(speed, direction),
        },
        RoverCommand::MotorStop { motor } => match motor {
            RoverMotorId::Right => rover.right_motor.stop(),
            RoverMotorId::Left => rover.left_motor.stop(),
        },
    }
}

/// Decodes a text frame and applies the command to the rover. A frame that is no
/// command leaves the rover as it was.
pub fn handle_message(frame: &str, rover: &mut Rover) -> (r: Result<
    Vec<RegisterWrite>,
    DecodeError,
>)
    ensures
        match r {
            Ok(writes) => decoded(frame@) matches Ok(command) && final(rover)@ == applied(
                old(rover)@,
                command,
            ) && writes@ == command_writes(old(rover)@, command),
            Err(error) => decoded(frame@) == Err::<RoverCommand, DecodeErrorKind>(error.kind)
                && error.text@ == frame@ && final(rover)@ == old(rover)@,
        },
{
    match decode(frame) {
        Ok(command) => Ok(apply_command(command, rover)),
        Err(error) => Err(error),
    }
}

/// The supervisor of one connection.
#[derive(Debug)]
pub struct Session {
    state: SessionState,
}

impl Session {
    /// Where the session stands.
    pub closed spec fn spec_state(&self) -> SessionState {
        self.state
    }

    /// A session on a connection that has just been established.
    pub fn open() -> (session: Session)
        ensures
            session.spec_state() == SessionState::Open,
    {
        Session { state: SessionState::Open }
    }

    /// Where the session stands.
    #[verifier::when_used_as_spec(spec_state)]
    pub fn state(&self) -> (state: SessionState)
        ensures
            state == self.spec_state(),
    {
        self.state
    }

    /// Takes one event and returns what to do about it.
    pub fn on_event(&mut self, rover: &mut Rover, event: SessionEvent) -> (action: SessionAction)
        ensures
            (final(self).state(), final(rover)@, action@) == step(
                old(self).state(),
                old(rover)@,
                event,
            ),
    {
        match self.state {
            SessionState::Open | SessionState::Active => match event {
                SessionEvent::Frame(text) => {
                    self.state = SessionState::Active;
                    match handle_message(text.as_str(), rover) {
                        Ok(writes) => SessionAction::Write(writes),
                        Err(error) => SessionAction::Reject(error),
                    }
                },
                SessionEvent::StopIssued => SessionAction::Nothing,
                _ => {
                    self.state = SessionState::Closing;
                    SessionAction::Stop(rover.stop())
                },
            },
            SessionState::Closing => match event {
                SessionEvent::StopIssued | SessionEvent::WriteFailed => {
                    self.state = SessionState::Terminated;
                    SessionAction::Release
                },
                _ => SessionAction::Nothing,
            },
            SessionState::Terminated => SessionAction::Nothing,
        }
    }
}

/// A whole run of a session: the state and the rover after `events` were taken one by
/// one, and the actions that they called for, in order.
pub open spec fn run(state: SessionState, rover: RoverView, events: Seq<SessionEvent>) -> (
    SessionState,
    RoverView,
    Seq<ActionView>,
)
    decreases events.len(),
{
    if events.len() == 0 {
        (state, rover, Seq::empty())
    } else {
        let before = run(state, rover, events.drop_last());
        let last = step(before.0, before.1, events.last());
        (last.0, last.1, before.2.push(last.2))
    }
}

/// Among `actions` there is a final stop, and nothing after it asks for a write.
pub open spec fn stopped_for_good(actions: Seq<ActionView>) -> bool {
    exists|i: int|
        0 <= i < actions.len() && #[trigger] actions[i] is Stop && forall|j: int|
            i < j < actions.len() ==> #[trigger] actions[j] is Release || actions[j] is Nothing
}

/// Whatever takes command authority away from a session that still has it, the session
/// stops both motors and goes on to close: the action is the final stop, whose two
/// writes set the off tick of each control channel to 0, the right motor's first.
pub proof fn lemma_loss_of_authority_stops_rover(
    state: SessionState,
    rover: RoverView,
    event: SessionEvent,
)
    requires
        state is Open || state is Active,
        event.ends_session(),
    ensures
        step(state, rover, event) == (
            SessionState::Closing,
            rover.stop(),
            ActionView::Stop(rover.stop_writes()),
        ),
        rover.stop().stopped(),
        rover.stop_writes() == seq![
            RegisterWrite { channel: rover.right.control, on: 0, off: 0 },
            RegisterWrite { channel: rover.left.control, on: 0, off: 0 },
        ],
{
}

/// A frame that is no command has no effect on the motors: the rover stays as it was,
/// the session stays active and the frame is handed back as refused.
pub proof fn lemma_refused_frame_changes_nothing(
    state: SessionState,
    rover: RoverView,
    text: String,
)
    requires
        state is Open || state is Active,
        decoded(text@) is Err,
    ensures
        step(state, rover, SessionEvent::Frame(text)) == (
            SessionState::Active,
            rover,
            ActionView::Reject(decoded(text@)->Err_0, text@),
        ),
{
}

/// A session that is over stays over: it changes nothing and asks for nothing.
pub proof fn lemma_terminated_is_final(rover: RoverView, event: SessionEvent)
    ensures
        step(SessionState::Terminated, rover, event) == (
            SessionState::Terminated,
            rover,
            ActionView::Nothing,
        ),
{
}

/// No session ends without a final stop. Take a session from its opening through any
/// events: where it has left the active state, the rover is stopped, a final stop was
/// handed out, and no write was asked for after it. Where it has not, no final stop was
/// handed out yet.
pub proof fn lemma_no_exit_without_stop(rover: RoverView, events: Seq<SessionEvent>)
    ensures
        ({
            let (state, after, actions) = run(SessionState::Open, rover, events);
            &&& actions.len() == events.len()
            &&& state is Closing || state is Terminated ==> after.stopped() && stopped_for_good(
                actions,
            )
            &&& state is Open || state is Active ==> forall|i: int|
                0 <= i < actions.len() ==> !(#[trigger] actions[i] is Stop)
        }),
    decreases events.len(),
{
    if events.len() > 0 {
        lemma_no_exit_without_stop(rover, events.drop_last());
        let before = run(SessionState::Open, rover, events.drop_last());
        let last = step(before.0, before.1, events.last());
        let actions = before.2.push(last.2);
        if last.0 is Closing || last.0 is Terminated {
            if before.0 is Open || before.0 is Active {
                let i = before.2.len() as int;
                assert(actions[i] is Stop);
                assert(stopped_for_good(actions));
            } else {
                let i = choose|i: int|
                    0 <= i < before.2.len() && #[trigger] before.2[i] is Stop && forall|j: int|
                        i < j < before.2.len() ==> #[trigger] before.2[j] is Release
                            || before.2[j] is Nothing;
                assert(actions[i] is Stop);
                assert forall|j: int| i < j < actions.len() implies #[trigger] actions[j] is Release
                    || actions[j] is Nothing by {
                    if j < before.2.len() {
                        assert(actions[j] == before.2[j]);
                    }
                }
                assert(stopped_for_good(actions));
            }
        } else {
            assert forall|i: int| 0 <= i < actions.len() implies !(#[trigger] actions[i]
                is Stop) by {
                if i < before.2.len() {
                    assert(actions[i] == before.2[i]);
                }
            }
        }
    }
}

/// Commands are applied whole and one after the other, so the last one wins: after two
/// `MotorRun` commands for the same motor, that motor runs as the second command says,
/// at its speed and in its direction, whatever the first one said.
pub proof fn lemma_last_command_wins(rover: RoverView, first: RoverCommand, second: RoverCommand)
    requires
        first is MotorRun,
        second is MotorRun,
        first->MotorRun_motor == second->MotorRun_motor,
    ensures
        applied(applied(rover, first), second) == applied(rover, second),
        command_writes(applied(rover, first), second) == command_writes(rover, second),
{
}

/// The registers follow the rover: where they showed what was last commanded before a
/// command, they show it after the command's writes are performed too. A command for
/// one motor leaves the registers of the other as they were.
pub proof fn lemma_registers_follow_commands(
    rover: RoverView,
    command: RoverCommand,
    registers: Map<Channel, (u16, u16)>,
)
    requires
        rover.wf(),
        rover.shown_by(registers),
    ensures
        applied(rover, command).wf(),
        applied(rover, command).shown_by(perform(registers, command_writes(rover, command))),
{
    match command {
        RoverCommand::MotorRun { motor: RoverMotorId::Right, direction, speed } => {
            lemma_run_sets_registers(rover.right, speed, direction, registers);
        },
        RoverCommand::MotorRun { motor: RoverMotorId::Left, direction, speed } => {
            lemma_run_sets_registers(rover.left, speed, direction, registers);
        },
        RoverCommand::MotorStop { motor: RoverMotorId::Right } => {
            lemma_stop_sets_registers(rover.right, registers);
        },
        RoverCommand::MotorStop { motor: RoverMotorId::Left } => {
            lemma_stop_sets_registers(rover.left, registers);
        },
    }
}

} // verus!
