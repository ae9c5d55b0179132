use growpi::cli::{parse_command, parse_decimal, parse_switch_state, CliCommand, CliError};
use growpi::relay::RelaySwitchState;

fn parse(line: &str) -> Result<CliCommand, CliError> {
    let words: Vec<&str> = line.split(' ').collect();
    parse_command(&words)
}

#[test]
fn relay_commands() {
    assert_eq!(
        parse("rel 2 on"),
        Ok(CliCommand::Relay { pin: 2, state: Some(RelaySwitchState::On) })
    );
    assert_eq!(
        parse("rel 0 false"),
        Ok(CliCommand::Relay { pin: 0, state: Some(RelaySwitchState::Off) })
    );
    assert_eq!(parse("rel 7"), Ok(CliCommand::Relay { pin: 7, state: None }));
    assert_eq!(parse("rel 2 maybe"), Err(CliError::InvalidSwitchState));
    assert_eq!(parse("rel x"), Err(CliError::InvalidNumber { position: 1 }));
    assert_eq!(parse("rel 256"), Err(CliError::InvalidNumber { position: 1 }));
    assert_eq!(parse("rel"), Err(CliError::MissingArgument { position: 1 }));
}

#[test]
fn pump_commands() {
    assert_eq!(parse("pump 200 grams"), Ok(CliCommand::PumpGrams { grams: 200 }));
    assert_eq!(parse("pump 1500"), Ok(CliCommand::PumpMillis { duration_ms: 1500 }));
    assert_eq!(parse("pump 70000 grams"), Err(CliError::InvalidNumber { position: 1 }));
    assert_eq!(parse("pump"), Err(CliError::MissingArgument { position: 1 }));
}

#[test]
fn reading_commands() {
    assert_eq!(parse("ana 3 loop"), Ok(CliCommand::Analog { channel: 3, repeat: true }));
    assert_eq!(parse("ana 1"), Ok(CliCommand::Analog { channel: 1, repeat: false }));
    assert_eq!(parse("soil loop"), Ok(CliCommand::Soil { repeat: true }));
    assert_eq!(parse("temp"), Ok(CliCommand::Temperature { repeat: false }));
    assert_eq!(parse("exit"), Ok(CliCommand::Exit));
    assert_eq!(parse("dance"), Err(CliError::UnknownCommand));
    assert_eq!(parse(""), Err(CliError::UnknownCommand));
}

#[test]
fn decimal_numbers() {
    assert_eq!(parse_decimal("0", 255), Some(0));
    assert_eq!(parse_decimal("+12", 255), Some(12));
    assert_eq!(parse_decimal("255", 255), Some(255));
    assert_eq!(parse_decimal("256", 255), None);
    assert_eq!(parse_decimal("18446744073709551615", u64::MAX), Some(u64::MAX));
    assert_eq!(parse_decimal("18446744073709551616", u64::MAX), None);
    assert_eq!(parse_decimal("", 255), None);
    assert_eq!(parse_decimal("+", 255), None);
    assert_eq!(parse_decimal("-1", 255), None);
    assert_eq!(parse_decimal("1a", 255), None);
}

#[test]
fn switch_words() {
    for w in ["1", "on", "true"] {
        assert_eq!(parse_switch_state(w), Some(RelaySwitchState::On));
    }
    for w in ["0", "off", "false"] {
        assert_eq!(parse_switch_state(w), Some(RelaySwitchState::Off));
    }
    assert_eq!(parse_switch_state("ON"), None);
    assert_eq!(parse_switch_state(""), None);
}
