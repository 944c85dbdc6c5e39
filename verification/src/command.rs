//! The command protocol: the commands a client can send, their JSON form, and the
//! decoding of a text frame into a command.
//!
//! A frame holds one JSON object with one member. The member's name selects the command
//! and its value holds the command's fields:
//!
//! ```text
//! {"MotorRun":{"motor":"Left","direction":"Forward","speed":50}}
//! {"MotorStop":{"motor":"Right"}}
//! ```

use crate::json::{lemma_view_of_object, parsed_json, Json, JsonValue};
use crate::rover::DCMotorDirection;
use vstd::prelude::*;

verus! {

/// Names one of the rover's two motors.
#[derive(Clone, Copy, Debug, PartialEq, Eq, Structural)]
pub enum RoverMotorId {
    Left,
    Right,
}

/// A command to the rover.
#[derive(Clone, Copy, Debug, PartialEq, Eq, Structural)]
pub enum RoverCommand {
    /// Run a motor in a direction at a speed, in percent. The protocol carries any
    /// 16-bit speed; the motor driver counts a speed above 100 as 100.
    MotorRun { motor: RoverMotorId, direction: DCMotorDirection, speed: u16 },
    /// Stop a motor.
    MotorStop { motor: RoverMotorId },
}

/// Why a frame is no command.
#[derive(Clone, Copy, Debug, PartialEq, Eq, Structural)]
pub enum DecodeErrorKind {
    /// The text is not JSON.
    Malformed,
    /// The document is not an object with exactly one member whose value is an object.
    NotACommand,
    /// The member's name is no command's name.
    UnknownCommand,
    /// A field of the command is not there.
    MissingField,
    /// A field is there but holds no value of its kind: a motor or a direction that is
    /// no known name, or a speed that is no number.
    InvalidField,
    /// The speed is a number that does not fit in 16 bits without sign or fraction.
    SpeedOutOfRange,
}

/// A frame that could not be decoded, with the reason.
#[derive(Debug, PartialEq, Eq)]
pub struct DecodeError {
    pub kind: DecodeErrorKind,
    /// The frame as it was received.
    pub text: String,
}

/// The name of a motor on the wire.
pub open spec fn motor_name(motor: RoverMotorId) -> Seq<char> {
    match motor {
        RoverMotorId::Left => "Left"@,
        RoverMotorId::Right => "Right"@,
    }
}

/// The motor that a name on the wire stands for.
pub open spec fn motor_of_name(name: Seq<char>) -> Option<RoverMotorId> {
    if name == "Left"@ {
        Some(RoverMotorId::Left)
    } else if name == "Right"@ {
        Some(RoverMotorId::Right)
    } else {
        None
    }
}

/// The name of a direction on the wire.
pub open spec fn direction_name(direction: DCMotorDirection) -> Seq<char> {
    match direction {
        DCMotorDirection::Forward => "Forward"@,
        DCMotorDirection::Backward => "Backward"@,
    }
}

/// The direction that a name on the wire stands for.
pub open spec fn direction_of_name(name: Seq<char>) -> Option<DCMotorDirection> {
    if name == "Forward"@ {
        Some(DCMotorDirection::Forward)
    } else if name == "Backward"@ {
        Some(DCMotorDirection::Backward)
    } else {
        None
    }
}

/// The motor that the field `motor` of `body` names.
pub open spec fn motor_of_json(body: JsonValue) -> Result<RoverMotorId, DecodeErrorKind> {
    match body.member("motor"@) {
        None => Err(DecodeErrorKind::MissingField),
        Some(JsonValue::Text(name)) => match motor_of_name(name) {
            Some(motor) => Ok(motor),
            None => Err(DecodeErrorKind::InvalidField),
        },
        Some(_) => Err(DecodeErrorKind::InvalidField),
    }
}

/// The direction that the field `direction` of `body` names.
pub open spec fn direction_of_json(body: JsonValue) -> Result<DCMotorDirection, DecodeErrorKind> {
    match body.member("direction"@) {
        None => Err(DecodeErrorKind::MissingField),
        Some(JsonValue::Text(name)) => match direction_of_name(name) {
            Some(direction) => Ok(direction),
            None => Err(DecodeErrorKind::InvalidField),
        },
        Some(_) => Err(DecodeErrorKind::InvalidField),
    }
}

/// The speed that the field `speed` of `body` holds.
pub open spec fn speed_of_json(body: JsonValue) -> Result<u16, DecodeErrorKind> {
    match body.member("speed"@) {
        None => Err(DecodeErrorKind::MissingField),
        Some(JsonValue::Natural(n)) => if n <= u16::MAX {
            Ok(n as u16)
        } else {
            Err(DecodeErrorKind::SpeedOutOfRange)
        },
        Some(JsonValue::OtherNumber) => Err(DecodeErrorKind::SpeedOutOfRange),
        Some(_) => Err(DecodeErrorKind::InvalidField),
    }
}

/// The `MotorRun` command whose fields `body` holds. The fields are read in the order
/// motor, direction, speed, and the first one that fails gives the error. Members of
/// `body` with other names are passed over.
pub open spec fn motor_run_of_json(body: JsonValue) -> Result<RoverCommand, DecodeErrorKind> {
    if !(body is Object) {
        Err(DecodeErrorKind::NotACommand)
    } else {
        match motor_of_json(body) {
            Err(kind) => Err(kind),
            Ok(motor) => match direction_of_json(body) {
                Err(kind) => Err(kind),
                Ok(direction) => match speed_of_json(body) {
                    Err(kind) => Err(kind),
                    Ok(speed) => Ok(RoverCommand::MotorRun { motor, direction, speed }),
                },
            },
        }
    }
}

/// The `MotorStop` command whose field `body` holds.
pub open spec fn motor_stop_of_json(body: JsonValue) -> Result<RoverCommand, DecodeErrorKind> {
    if !(body is Object) {
        Err(DecodeErrorKind::NotACommand)
    } else {
        match motor_of_json(body) {
            Err(kind) => Err(kind),
            Ok(motor) => Ok(RoverCommand::MotorStop { motor }),
        }
    }
}

/// The command that a JSON document stands for, or why it stands for none.
pub open spec fn command_of_json(doc: JsonValue) -> Result<RoverCommand, DecodeErrorKind> {
    match doc {
        JsonValue::Object(members) => if members.len() != 1 {
            Err(DecodeErrorKind::NotACommand)
        } else if members[0].0 == "MotorRun"@ {
            motor_run_of_json(members[0].1)
        } else if members[0].0 == "MotorStop"@ {
            motor_stop_of_json(members[0].1)
        } else {
            Err(DecodeErrorKind::UnknownCommand)
        },
        _ => Err(DecodeErrorKind::NotACommand),
    }
}

/// The JSON document that stands for a command.
pub open spec fn json_of_command(command: RoverCommand) -> JsonValue {
    match command {
        RoverCommand::MotorRun { motor, direction, speed } => JsonValue::Object(
            seq![
                (
                    "MotorRun"@,
                    JsonValue::Object(
                        seq![
                            ("motor"@, JsonValue::Text(motor_name(motor))),
                            ("direction"@, JsonValue::Text(direction_name(direction))),
                            ("speed"@, JsonValue::Natural(speed as u64)),
                        ],
                    ),
                ),
            ],
        ),
        RoverCommand::MotorStop { motor } => JsonValue::Object(
            seq![
                (
                    "MotorStop"@,
                    JsonValue::Object(seq![("motor"@, JsonValue::Text(motor_name(motor)))]),
                ),
            ],
        ),
    }
}

/// What decoding makes of a frame: the command that the parsed document stands for.
pub open spec fn decoded(text: Seq<char>) -> Result<RoverCommand, DecodeErrorKind> {
    match parsed_json(text) {
        None => Err(DecodeErrorKind::Malformed),
        Some(doc) => command_of_json(doc),
    }
}

/// The character that stands for a digit.
pub open spec fn digit(d: nat) -> char {
    if d == 0 {
        '0'
    } else if d == 1 {
        '1'
    } else if d == 2 {
        '2'
    } else if d == 3 {
        '3'
    } else if d == 4 {
        '4'
    } else if d == 5 {
        '5'
    } else if d == 6 {
        '6'
    } else if d == 7 {
        '7'
    } else if d == 8 {
        '8'
    } else {
        '9'
    }
}

/// A number in decimal digits, without leading zeros.
pub open spec fn decimal(n: nat) -> Seq<char>
    decreases n,
{
    if n < 10 {
        seq![digit(n)]
    } else {
        decimal(n / 10).push(digit(n % 10))
    }
}

/// The text of a command on the wire: its JSON document written without spaces, the
/// fields in the order motor, direction, speed.
pub open spec fn wire_text(command: RoverCommand) -> Seq<char> {
    match command {
        RoverCommand::MotorRun { motor, direction, speed } => "{\"MotorRun\":{\"motor\":\""@
            + motor_name(motor) + "\",\"direction\":\""@ + direction_name(direction)
            + "\",\"speed\":"@ + decimal(speed as nat) + "}}"@,
        RoverCommand::MotorStop { motor } => "{\"MotorStop\":{\"motor\":\""@ + motor_name(motor)
            + "\"}}"@,
    }
}

/// Whether two texts hold the same characters.
fn same_text(a: &str, b: &str) -> (same: bool)
    ensures
        same == (a@ == b@),
{
    a.to_owned() == b.to_owned()
}

impl RoverMotorId {
    /// The motor's name on the wire.
    pub fn name(&self) -> (name: &'static str)
        ensures
            name@ == motor_name(*self),
    {
        match self {
            RoverMotorId::Left => "Left",
            RoverMotorId::Right => "Right",
        }
    }

    /// The motor that `name` stands for. Names are case-sensitive.
    pub fn from_name(name: &str) -> (motor: Option<RoverMotorId>)
        ensures
            motor == motor_of_name(name@),
    {
        if same_text(name, "Left") {
            Some(RoverMotorId::Left)
        } else if same_text(name, "Right") {
            Some(RoverMotorId::Right)
        } else {
            None
        }
    }

    /// Reads the field `motor` of a command's body.
    fn from_json(body: &Json) -> (r: Result<RoverMotorId, DecodeErrorKind>)
        ensures
            r == motor_of_json(body@),
    {
        match body.member("motor") {
            None => Err(DecodeErrorKind::MissingField),
            Some(Json::Text(name)) => match RoverMotorId::from_name(name.as_str()) {
                Some(motor) => Ok(motor),
                None => Err(DecodeErrorKind::InvalidField),
            },
            Some(_) => Err(DecodeErrorKind::InvalidField),
        }
    }
}

impl DCMotorDirection {
    /// The direction's name on the wire.
    pub fn name(&self) -> (name: &'static str)
        ensures
            name@ == direction_name(*self),
    {
        match self {
            DCMotorDirection::Forward => "Forward",
            DCMotorDirection::Backward => "Backward",
        }
    }

    /// The direction that `name` stands for. Names are case-sensitive.
    pub fn from_name(name: &str) -> (direction: Option<DCMotorDirection>)
        ensures
            direction == direction_of_name(name@),
    {
        if same_text(name, "Forward") {
            Some(DCMotorDirection::Forward)
        } else if same_text(name, "Backward") {
            Some(DCMotorDirection::Backward)
        } else {
            None
        }
    }

    /// Reads the field `direction` of a command's body.
    fn from_json(body: &Json) -> (r: Result<DCMotorDirection, DecodeErrorKind>)
        ensures
            r == direction_of_json(body@),
    {
        match body.member("direction") {
            None => Err(DecodeErrorKind::MissingField),
            Some(Json::Text(name)) => match DCMotorDirection::from_name(name.as_str()) {
                Some(direction) => Ok(direction),
                None => Err(DecodeErrorKind::InvalidField),
            },
            Some(_) => Err(DecodeErrorKind::InvalidField),
        }
    }
}

/// Reads the field `speed` of a command's body.
fn speed_from_json(body: &Json) -> (r: Result<u16, DecodeErrorKind>)
    ensures
        r == speed_of_json(body@),
{
    match body.member("speed") {
        None => Err(DecodeErrorKind::MissingField),
        Some(Json::Natural(n)) => if *n <= 65535 {
            Ok(*n as u16)
        } else {
            Err(DecodeErrorKind::SpeedOutOfRange)
        },
        Some(Json::OtherNumber) => Err(DecodeErrorKind::SpeedOutOfRange),
        Some(_) => Err(DecodeErrorKind::InvalidField),
    }
}

impl RoverCommand {
    /// Reads a `MotorRun` command from its body.
    fn motor_run_from_json(body: &Json) -> (r: Result<RoverCommand, DecodeErrorKind>)
        ensures
            r == motor_run_of_json(body@),
    {
        match body {
            Json::Object(_) => {},
            _ => {
                return Err(DecodeErrorKind::NotACommand);
            },
        }
        let motor = match RoverMotorId::from_json(body) {
            Ok(motor) => motor,
            Err(kind) => {
                return Err(kind);
            },
        };
        let direction = match DCMotorDirection::from_json(body) {
            Ok(direction) => direction,
            Err(kind) => {
                return Err(kind);
            },
        };
        match speed_from_json(body) {
            Ok(speed) => Ok(RoverCommand::MotorRun { motor, direction, speed }),
            Err(kind) => Err(kind),
        }
    }

    /// Reads a `MotorStop` command from its body.
    fn motor_stop_from_json(body: &Json) -> (r: Result<RoverCommand, DecodeErrorKind>)
        ensures
            r == motor_stop_of_json(body@),
    {
        match body {
            Json::Object(_) => {},
            _ => {
                return Err(DecodeErrorKind::NotACommand);
            },
        }
        match RoverMotorId::from_json(body) {
            Ok(motor) => Ok(RoverCommand::MotorStop { motor }),
            Err(kind) => Err(kind),
        }
    }

    /// Reads a command from a JSON document.
    pub fn from_json(doc: &Json) -> (r: Result<RoverCommand, DecodeErrorKind>)
        ensures
            r == command_of_json(doc@),
    {
        match doc {
            Json::Object(members) => {
                proof {
                    lemma_view_of_object(*members);
                }
                if members.len() != 1 {
                    Err(DecodeErrorKind::NotACommand)
                } else if same_text(members[0].0.as_str(), "MotorRun") {
                    RoverCommand::motor_run_from_json(&members[0].1)
                } else if same_text(members[0].0.as_str(), "MotorStop") {
                    RoverCommand::motor_stop_from_json(&members[0].1)
                } else {
                    Err(DecodeErrorKind::UnknownCommand)
                }
            },
            _ => Err(DecodeErrorKind::NotACommand),
        }
    }

    /// Writes the command as a JSON document.
    pub fn to_json(&self) -> (doc: Json)
        ensures
            doc@ == json_of_command(*self),
    {
        match self {
            RoverCommand::MotorRun { motor, direction, speed } => {
                let mut fields: Vec<(String, Json)> = Vec::new();
                fields.push(("motor".to_owned(), Json::Text(motor.name().to_owned())));
                fields.push(("direction".to_owned(), Json::Text(direction.name().to_owned())));
                fields.push(("speed".to_owned(), Json::Natural(*speed as u64)));
                let ghost held = fields;
                let mut members: Vec<(String, Json)> = Vec::new();
                members.push(("MotorRun".to_owned(), Json::Object(fields)));
                proof {
                    lemma_view_of_object(held);
                    lemma_view_of_object(members);
                    assert(Json::Object(held)@->Object_0 =~= json_of_command(
                        *self,
                    )->Object_0[0].1->Object_0);
                    assert(Json::Object(members)@->Object_0 =~= json_of_command(*self)->Object_0);
                }
                Json::Object(members)
            },
            RoverCommand::MotorStop { motor } => {
                let mut fields: Vec<(String, Json)> = Vec::new();
                fields.push(("motor".to_owned(), Json::Text(motor.name().to_owned())));
                let ghost held = fields;
                let mut members: Vec<(String, Json)> = Vec::new();
                members.push(("MotorStop".to_owned(), Json::Object(fields)));
                proof {
                    lemma_view_of_object(held);
                    lemma_view_of_object(members);
                    assert(Json::Object(held)@->Object_0 =~= json_of_command(
                        *self,
                    )->Object_0[0].1->Object_0);
                    assert(Json::Object(members)@->Object_0 =~= json_of_command(*self)->Object_0);
                }
                Json::Object(members)
            },
        }
    }
}

/// Decodes a text frame. The frame is parsed as JSON and the document is read as a
/// command; a frame that fails either way comes back in the error, and nothing else
/// happens.
pub fn decode(frame: &str) -> (r: Result<RoverCommand, DecodeError>)
    ensures
        match r {
            Ok(command) => decoded(frame@) == Ok::<RoverCommand, DecodeErrorKind>(command),
            Err(error) => decoded(frame@) == Err::<RoverCommand, DecodeErrorKind>(error.kind)
                && error.text@ == frame@,
        },
{
    let read = match Json::parse(frame) {
        Some(doc) => RoverCommand::from_json(&doc),
        None => Err(DecodeErrorKind::Malformed),
    };
    match read {
        Ok(command) => Ok(command),
        Err(kind) => Err(DecodeError { kind, text: frame.to_owned() }),
    }
}

/// The text of one digit.
fn digit_text(d: u16) -> (text: &'static str)
    requires
        d < 10,
    ensures
        text@ == seq![digit(d as nat)],
{
    proof {
        reveal_strlit("0");
        reveal_strlit("1");
        reveal_strlit("2");
        reveal_strlit("3");
        reveal_strlit("4");
        reveal_strlit("5");
        reveal_strlit("6");
        reveal_strlit("7");
        reveal_strlit("8");
        reveal_strlit("9");
    }
    let text = match d {
        0 => "0",
        1 => "1",
        2 => "2",
        3 => "3",
        4 => "4",
        5 => "5",
        6 => "6",
        7 => "7",
        8 => "8",
        _ => "9",
    };
    assert(text@ =~= seq![digit(d as nat)]);
    text
}

/// Appends a number in decimal digits.
fn push_decimal(text: &mut String, n: u16)
    ensures
        final(text)@ == old(text)@ + decimal(n as nat),
    decreases n,
{
    if n >= 10 {
        push_decimal(text, n / 10);
    }
    text.append(digit_text(n % 10));
    assert(text@ =~= old(text)@ + decimal(n as nat));
}

/// Encodes a command as the text of a frame.
pub fn encode(command: &RoverCommand) -> (text: String)
    ensures
        text@ == wire_text(*command),
{
    match command {
        RoverCommand::MotorRun { motor, direction, speed } => {
            let mut text = "{\"MotorRun\":{\"motor\":\"".to_owned();
            text.append(motor.name());
            text.append("\",\"direction\":\"");
            text.append(direction.name());
            text.append("\",\"speed\":");
            push_decimal(&mut text, *speed);
            text.append("}}");
            text
        },
        RoverCommand::MotorStop { motor } => {
            let mut text = "{\"MotorStop\":{\"motor\":\"".to_owned();
            text.append(motor.name());
            text.append("\"}}");
            text
        },
    }
}

/// Each motor is found again under its name.
pub proof fn lemma_motor_name_round_trip(motor: RoverMotorId)
    ensures
        motor_of_name(motor_name(motor)) == Some(motor),
{
    reveal_strlit("Left");
    reveal_strlit("Right");
    assert("Left"@.len() != "Right"@.len());
}

/// Each direction is found again under its name.
pub proof fn lemma_direction_name_round_trip(direction: DCMotorDirection)
    ensures
        direction_of_name(direction_name(direction)) == Some(direction),
{
    reveal_strlit("Forward");
    reveal_strlit("Backward");
    assert("Forward"@.len() != "Backward"@.len());
}

/// The fields of a `MotorRun` command are found again in the document that stands for
/// it.
proof fn lemma_motor_run_fields(motor: RoverMotorId, direction: DCMotorDirection, speed: u16)
    ensures
        ({
            let body = json_of_command(
                RoverCommand::MotorRun { motor, direction, speed },
            )->Object_0[0].1;
            &&& body is Object
            &&& body.member("motor"@) == Some(JsonValue::Text(motor_name(motor)))
            &&& body.member("direction"@) == Some(JsonValue::Text(direction_name(direction)))
            &&& body.member("speed"@) == Some(JsonValue::Natural(speed as u64))
        }),
{
    reveal_strlit("motor");
    reveal_strlit("direction");
    reveal_strlit("speed");
    let body = json_of_command(RoverCommand::MotorRun { motor, direction, speed })->Object_0[0].1;
    let fields = body->Object_0;
    let rest = fields.drop_first();
    assert(rest[0].0 == "direction"@);
    assert(rest.drop_first()[0].0 == "speed"@);
    assert("motor"@.len() != "direction"@.len());
    assert("motor"@[0] != "speed"@[0]);
    assert("direction"@.len() != "speed"@.len());
    reveal_with_fuel(crate::json::first_named, 4);
}

/// Reading the document that stands for a command gives that command back, for every
/// command.
pub proof fn lemma_json_round_trip(command: RoverCommand)
    ensures
        command_of_json(json_of_command(command)) == Ok::<RoverCommand, DecodeErrorKind>(command),
{
    let doc = json_of_command(command);
    let body = doc->Object_0[0].1;
    match command {
        RoverCommand::MotorRun { motor, direction, speed } => {
            lemma_motor_name_round_trip(motor);
            lemma_direction_name_round_trip(direction);
            lemma_motor_run_fields(motor, direction, speed);
            assert(motor_run_of_json(body) == Ok::<RoverCommand, DecodeErrorKind>(command));
        },
        RoverCommand::MotorStop { motor } => {
            reveal_strlit("MotorRun");
            reveal_strlit("MotorStop");
            assert("MotorRun"@.len() != "MotorStop"@.len());
            lemma_motor_name_round_trip(motor);
            assert(body.member("motor"@) == Some(JsonValue::Text(motor_name(motor))));
            assert(motor_stop_of_json(body) == Ok::<RoverCommand, DecodeErrorKind>(command));
        },
    }
}

/// A number is found again in its decimal digits: no two numbers are written alike.
pub proof fn lemma_decimal_is_lossless(a: nat, b: nat)
    requires
        decimal(a) == decimal(b),
    ensures
        a == b,
    decreases a,
{
    lemma_decimal_has_digits(a / 10);
    lemma_decimal_has_digits(b / 10);
    if a >= 10 && b >= 10 {
        assert(decimal(a).last() == digit(a % 10));
        assert(decimal(b).last() == digit(b % 10));
        assert(decimal(a).drop_last() == decimal(a / 10));
        assert(decimal(b).drop_last() == decimal(b / 10));
        lemma_decimal_is_lossless(a / 10, b / 10);
        assert(a % 10 == b % 10);
    } else if a < 10 && b < 10 {
        assert(decimal(a)[0] == digit(a));
        assert(decimal(b)[0] == digit(b));
    } else if a < 10 {
        assert(decimal(a).len() == 1);
        assert(decimal(b).len() == decimal(b / 10).len() + 1);
    } else {
        assert(decimal(b).len() == 1);
        assert(decimal(a).len() == decimal(a / 10).len() + 1);
    }
}

/// A number is written with at least one digit.
proof fn lemma_decimal_has_digits(n: nat)
    ensures
        decimal(n).len() >= 1,
    decreases n,
{
    if n >= 10 {
        lemma_decimal_has_digits(n / 10);
    }
}

/// Encoding loses nothing: two commands with the same text on the wire are the same
/// command.
pub proof fn lemma_wire_text_is_lossless(a: RoverCommand, b: RoverCommand)
    requires
        wire_text(a) == wire_text(b),
    ensures
        a == b,
{
    reveal_strlit("{\"MotorRun\":{\"motor\":\"");
    reveal_strlit("\",\"direction\":\"");
    reveal_strlit("\",\"speed\":");
    reveal_strlit("}}");
    reveal_strlit("{\"MotorStop\":{\"motor\":\"");
    reveal_strlit("\"}}");
    reveal_strlit("Left");
    reveal_strlit("Right");
    reveal_strlit("Forward");
    reveal_strlit("Backward");
    let text_a = wire_text(a);
    let text_b = wire_text(b);
    match (a, b) {
        (
            RoverCommand::MotorStop { motor: motor_a },
            RoverCommand::MotorStop { motor: motor_b },
        ) => {
            assert(text_a.len() == 26 + motor_name(motor_a).len());
            assert(text_b.len() == 26 + motor_name(motor_b).len());
        },
        (
            RoverCommand::MotorRun { motor: motor_a, direction: direction_a, speed: speed_a },
            RoverCommand::MotorRun { motor: motor_b, direction: direction_b, speed: speed_b },
        ) => {
            let digits_a = decimal(speed_a as nat);
            let digits_b = decimal(speed_b as nat);
            lemma_decimal_has_digits(speed_a as nat);
            lemma_decimal_has_digits(speed_b as nat);
            assert(text_a[22] == motor_name(motor_a)[0]);
            assert(text_b[22] == motor_name(motor_b)[0]);
            assert(motor_a == motor_b);
            let at = (22 + motor_name(motor_a).len() + 15) as int;
            assert(text_a[at] == direction_name(direction_a)[0]);
            assert(text_b[at] == direction_name(direction_b)[0]);
            assert(direction_a == direction_b);
            let from = at + direction_name(direction_a).len() + 10;
            assert(text_a.len() == from + digits_a.len() + 2);
            assert(text_b.len() == from + digits_b.len() + 2);
            assert forall|i: int| 0 <= i < digits_a.len() implies digits_a[i] == digits_b[i] by {
                assert(text_a[from + i] == digits_a[i]);
                assert(text_b[from + i] == digits_b[i]);
            }
            assert(digits_a =~= digits_b);
            lemma_decimal_is_lossless(speed_a as nat, speed_b as nat);
        },
        (RoverCommand::MotorRun { motor, direction, speed }, RoverCommand::MotorStop { .. }) => {
            lemma_decimal_has_digits(speed as nat);
            assert(text_a[7] == 'R');
            assert(text_b[7] == 'S');
        },
        (RoverCommand::MotorStop { .. }, RoverCommand::MotorRun { motor, direction, speed }) => {
            lemma_decimal_has_digits(speed as nat);
            assert(text_a[7] == 'S');
            assert(text_b[7] == 'R');
        },
    }
}

} // verus!
