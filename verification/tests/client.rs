use terralib::binary32::Binary32;
use terralib::client::{
    create_update_data, parse_cmd, parse_duration, CommandParseError, ControlCommand,
    ParsedCommand,
};
use terralib::types::{Actuator, ActuatorOverride, ActuatorOverrideSet, ActuatorValue};

const DEFAULT_DURATION: f32 = 60.0;

fn number(value: f32) -> Binary32 {
    Binary32::from_bits(value.to_bits())
}

fn read(text: &Option<String>) -> Option<Binary32> {
    text.as_ref().and_then(|t| t.parse::<f32>().ok()).map(number)
}

/// Reads a command and its two numbers, as the client does.
fn command(cmd: &str) -> Result<ControlCommand, CommandParseError> {
    parse_cmd(cmd).map(|parsed| parsed.assemble(read(&parsed.value), read(&parsed.duration)))
}

#[test]
fn full_cmd() {
    assert_eq!(
        command("m@1:2"),
        Ok(ControlCommand { actuator: Actuator::Mist, value: number(1.0), duration: number(2.0) })
    );
}

#[test]
fn only_duration() {
    assert_eq!(
        command("m:2"),
        Ok(ControlCommand { actuator: Actuator::Mist, value: number(0.0), duration: number(2.0) })
    );
}

#[test]
fn only_value() {
    assert_eq!(
        command("m@1"),
        Ok(ControlCommand {
            actuator: Actuator::Mist,
            value: number(1.0),
            duration: number(DEFAULT_DURATION),
        })
    );
}

#[test]
fn uppercase_abbrev() {
    assert_eq!(
        command("M:2"),
        Ok(ControlCommand { actuator: Actuator::Mist, value: number(1.0), duration: number(2.0) })
    );
}

#[test]
fn decimals() {
    assert_eq!(
        command("l@0.5:0.5"),
        Ok(ControlCommand {
            actuator: Actuator::Lights,
            value: number(0.5),
            duration: number(0.5),
        })
    );
}

#[test]
fn invalid_abbrev() {
    assert_eq!(command("x:2"), Err(CommandParseError::new("Invalid abbreviation: 'x'")),);
}

#[test]
fn invalid_command() {
    assert_eq!(command("abc"), Err(CommandParseError::new("Invalid command: 'abc'")));
}

#[test]
fn create() {
    let cmds = vec![
        ControlCommand { actuator: Actuator::Mist, value: number(1.0), duration: number(10.0) },
        ControlCommand { actuator: Actuator::Lights, value: number(0.5), duration: number(10.0) },
    ];
    let update_data = create_update_data(&cmds);
    assert_eq!(
        update_data,
        ActuatorOverrideSet {
            updates: vec![
                ActuatorOverride {
                    actuator: Actuator::Mist,
                    value: ActuatorValue::Bool(true),
                    duration_secs: 10,
                },
                ActuatorOverride {
                    actuator: Actuator::Lights,
                    value: ActuatorValue::Float(number(0.5)),
                    duration_secs: 10,
                }
            ],
        }
    );
}

#[test]
fn commands_fall_apart_at_the_marks() {
    assert_eq!(
        parse_cmd("l@0.5:12.25"),
        Ok(ParsedCommand {
            actuator: Actuator::Lights,
            emphatic: false,
            value: Some("0.5".to_string()),
            duration: Some("12.25".to_string()),
        })
    );
    assert_eq!(
        parse_cmd("F"),
        Ok(ParsedCommand { actuator: Actuator::Fans, emphatic: true, value: None, duration: None })
    );
    assert_eq!(
        parse_cmd("f@:"),
        Ok(ParsedCommand {
            actuator: Actuator::Fans,
            emphatic: false,
            value: Some("".to_string()),
            duration: Some("".to_string()),
        })
    );
    assert_eq!(
        parse_cmd("L@.5"),
        Ok(ParsedCommand {
            actuator: Actuator::Lights,
            emphatic: true,
            value: Some(".5".to_string()),
            duration: None,
        })
    );
}

#[test]
fn commands_that_are_none() {
    assert_eq!(parse_cmd(""), Err(CommandParseError::new("Empty command")));
    for cmd in [
        "abc", "m@", "m@1:", "1", "@1", ":2", "m@1.", "m@1.2.3", "m@-1", "m@1:2:3", "m@1@2", "m 1",
        "m@1e3", "mm", "m:2@1", "\u{e9}", "m@1:2\n", " m", "m@+1", "m@1,5",
    ] {
        let shaped = cmd == "m@" || cmd == "m@1:";
        if shaped {
            assert!(parse_cmd(cmd).is_ok(), "{cmd:?}");
        } else {
            assert_eq!(
                parse_cmd(cmd),
                Err(CommandParseError::new(&format!("Invalid command: '{cmd}'"))),
                "{cmd:?}"
            );
        }
    }
    for cmd in ["x", "Z@1", "q:2", "a@0.5:3"] {
        let letter = &cmd[..1];
        assert_eq!(
            parse_cmd(cmd),
            Err(CommandParseError::new(&format!("Invalid abbreviation: '{letter}'"))),
        );
    }
    assert_eq!(CommandParseError::new("Empty command").message(), "Empty command");
}

#[test]
fn missing_numbers_have_defaults() {
    assert_eq!(
        command("F"),
        Ok(ControlCommand {
            actuator: Actuator::Fans,
            value: number(1.0),
            duration: number(DEFAULT_DURATION),
        })
    );
    assert_eq!(
        command("f"),
        Ok(ControlCommand {
            actuator: Actuator::Fans,
            value: number(0.0),
            duration: number(DEFAULT_DURATION),
        })
    );
    // A text that is there but is no number counts as zero.
    assert_eq!(
        command("M@:"),
        Ok(ControlCommand { actuator: Actuator::Mist, value: number(0.0), duration: number(0.0) })
    );
    assert_eq!(
        command("l@.25:7"),
        Ok(ControlCommand {
            actuator: Actuator::Lights,
            value: number(0.25),
            duration: number(7.0),
        })
    );
}

#[test]
fn switches_are_on_above_zero() {
    let cases = [
        (Actuator::Mist, 0.0, ActuatorValue::Bool(false)),
        (Actuator::Mist, 0.001, ActuatorValue::Bool(true)),
        (Actuator::Fans, -1.0, ActuatorValue::Bool(false)),
        (Actuator::Fans, f32::NAN, ActuatorValue::Bool(false)),
        (Actuator::Fans, 1.0, ActuatorValue::Bool(true)),
        (Actuator::Lights, 0.0, ActuatorValue::Float(number(0.0))),
        (Actuator::Lights, 7.5, ActuatorValue::Float(number(7.5))),
    ];
    for (actuator, value, expected) in cases {
        let cmd = ControlCommand { actuator, value: number(value), duration: number(2.9) };
        assert_eq!(
            cmd.to_override(),
            ActuatorOverride { actuator, value: expected, duration_secs: 2 }
        );
    }
    assert_eq!(create_update_data(&[]).updates, vec![]);
}

#[test]
fn seconds_are_read_as_the_standard_library_reads_them() {
    for text in [
        "10",
        "0",
        "+5",
        "007",
        "18446744073709551615",
        "18446744073709551616",
        "99999999999999999999999",
        "",
        "+",
        "-1",
        "1.5",
        " 1",
        "1 ",
        "1_000",
        "0x10",
        "++1",
        "+-1",
        "\u{661}",
        "12a",
    ] {
        let expected: Option<u64> = text.parse().ok();
        assert_eq!(parse_duration(text).ok(), expected, "{text:?}");
    }
    assert_eq!(parse_duration("10"), Ok(10));
    assert_eq!(
        parse_duration(""),
        Err(CommandParseError::new("cannot parse integer from empty string"))
    );
    assert_eq!(
        parse_duration("x"),
        Err(CommandParseError::new("invalid digit found in string"))
    );
    assert_eq!(
        parse_duration("18446744073709551616"),
        Err(CommandParseError::new("number too large to fit in target type"))
    );
    let std_error = |text: &str| text.parse::<u64>().unwrap_err().to_string();
    for text in [
        "",
        "x",
        "+",
        "18446744073709551616",
        "99999999999999999999999x",
        "x99999999999999999999999",
        "1844674407370955161x6",
        "+-",
        "-",
        "12 ",
    ] {
        assert_eq!(parse_duration(text).unwrap_err().message(), std_error(text));
    }
}
