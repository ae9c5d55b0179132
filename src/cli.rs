//! The interactive shell's command language.
//!
//! A line is split at single spaces into words; the first word names the
//! command:
//!
//! - `ana <channel> [loop]`: read an analog channel, once or every second;
//! - `rel <slot> [state]`: switch a relay to `1`/`on`/`true` or
//!   `0`/`off`/`false`, or toggle it when no state is given;
//! - `soil [loop]`, `temp [loop]`: read soil moisture or temperature;
//! - `pump <grams> grams`: water that mass; `pump <ms>`: run the pump that
//!   long;
//! - `exit`.
//!
//! Numbers are decimal, with an optional leading `+`, as Rust's integer
//! parsing reads them.
use vstd::prelude::*;
use vstd::string::StringSliceAdditionalSpecFns;
use crate::relay::RelaySwitchState;

verus! {

/// A command of the shell.
#[derive(Clone, Copy, Debug, PartialEq, Eq, Structural)]
pub enum CliCommand {
    Analog { channel: u8, repeat: bool },
    Relay { pin: u8, state: Option<RelaySwitchState> },
    Soil { repeat: bool },
    Temperature { repeat: bool },
    PumpGrams { grams: u16 },
    PumpMillis { duration_ms: u64 },
    Exit,
}

/// Why a line is not a command.
#[derive(Clone, Copy, Debug, PartialEq, Eq, Structural)]
pub enum CliError {
    UnknownCommand,
    /// Word `position` is missing.
    MissingArgument { position: usize },
    /// Word `position` is not a number in range.
    InvalidNumber { position: usize },
    InvalidSwitchState,
}

pub open spec fn is_digit(b: u8) -> bool {
    48 <= b <= 57
}

/// The value of a string of decimal digits.
pub open spec fn digits_value(s: Seq<u8>) -> int
    decreases s.len(),
{
    if s.len() == 0 {
        0
    } else {
        10 * digits_value(s.drop_last()) + (s.last() - 48)
    }
}

/// The digits of `s`, after an optional leading `+`.
pub open spec fn unsigned_digits(s: Seq<u8>) -> Seq<u8> {
    if s.len() > 0 && s[0] == 43 {
        s.drop_first()
    } else {
        s
    }
}

/// The number that `s` writes, if it is one: at least one digit, and
/// nothing but digits after the optional `+`.
pub open spec fn decimal_spec(s: Seq<u8>) -> Option<int> {
    let d = unsigned_digits(s);
    if d.len() > 0 && forall|i: int| 0 <= i < d.len() ==> is_digit(#[trigger] d[i]) {
        Some(digits_value(d))
    } else {
        None
    }
}

/// The number that `s` writes, if it is one and at most `max`.
pub open spec fn bounded_decimal(s: Seq<u8>, max: int) -> Option<int> {
    match decimal_spec(s) {
        Some(v) => if v <= max {
            Some(v)
        } else {
            None
        },
        None => None,
    }
}

/// Reads a decimal number of at most `max`.
pub fn parse_decimal(s: &str, max: u64) -> (r: Option<u64>)
    ensures
        r matches Some(v) ==> bounded_decimal(s.spec_bytes(), max as int) == Some(v as int) && v
            <= max,
        r is None ==> bounded_decimal(s.spec_bytes(), max as int) is None,
{
    let bytes = s.as_bytes();
    let start: usize = if bytes.len() > 0 && bytes[0] == 43 {
        1
    } else {
        0
    };
    let ghost d = unsigned_digits(bytes@);
    assert(d =~= bytes@.subrange(start as int, bytes@.len() as int));
    if start >= bytes.len() {
        return None;
    }
    let mut acc: u64 = 0;
    let mut too_big = false;
    let mut i: usize = start;
    while i < bytes.len()
        invariant
            bytes@ == s.spec_bytes(),
            d == unsigned_digits(bytes@),
            start <= i <= bytes@.len(),
            d == bytes@.subrange(start as int, bytes@.len() as int),
            forall|j: int| start <= j < i ==> is_digit(#[trigger] bytes@[j]),
            !too_big ==> acc == digits_value(bytes@.subrange(start as int, i as int)) && acc
                <= max,
            too_big ==> digits_value(bytes@.subrange(start as int, i as int)) > max,
            digits_value(bytes@.subrange(start as int, i as int)) >= 0,
        decreases bytes@.len() - i,
    {
        let b = bytes[i];
        if b < 48 || b > 57 {
            assert(!is_digit(d[i - start]));
            return None;
        }
        let digit = (b - 48) as u64;
        proof {
            let next = bytes@.subrange(start as int, i + 1);
            assert(next.drop_last() =~= bytes@.subrange(start as int, i as int));
        }
        if !too_big {
            if digit > max || acc > (max - digit) / 10 {
                proof {
                    if digit <= max {
                        assert(10 * acc + digit > max) by (nonlinear_arith)
                            requires
                                acc > (max - digit) / 10,
                                digit <= max,
                        ;
                    }
                }
                too_big = true;
            } else {
                proof {
                    assert(10 * acc + digit <= max) by (nonlinear_arith)
                        requires
                            acc <= (max - digit) / 10,
                            digit <= max,
                    ;
                }
                acc = acc * 10 + digit;
            }
        }
        i = i + 1;
    }
    assert(bytes@.subrange(start as int, i as int) =~= d);
    if too_big {
        None
    } else {
        Some(acc)
    }
}

/// `loop`
pub open spec fn loop_word() -> Seq<u8> {
    seq![108u8, 111u8, 111u8, 112u8]
}

/// `grams`
pub open spec fn grams_word() -> Seq<u8> {
    seq![103u8, 114u8, 97u8, 109u8, 115u8]
}

/// The switch state a word names: `1`, `on` or `true` for on, `0`, `off` or
/// `false` for off.
pub open spec fn switch_word_spec(w: Seq<u8>) -> Option<RelaySwitchState> {
    if w == seq![49u8] || w == seq![111u8, 110u8] || w == seq![116u8, 114u8, 117u8, 101u8] {
        Some(RelaySwitchState::On)
    } else if w == seq![48u8] || w == seq![111u8, 102u8, 102u8] || w == seq![
        102u8,
        97u8,
        108u8,
        115u8,
        101u8,
    ] {
        Some(RelaySwitchState::Off)
    } else {
        None
    }
}

fn bytes_are(s: &str, word: &[u8]) -> (r: bool)
    ensures
        r == (s.spec_bytes() == word@),
{
    let b = s.as_bytes();
    if b.len() != word.len() {
        return false;
    }
    let mut i: usize = 0;
    while i < b.len()
        invariant
            b@ == s.spec_bytes(),
            b@.len() == word@.len(),
            i <= b@.len(),
            forall|j: int| 0 <= j < i ==> b@[j] == word@[j],
        decreases b@.len() - i,
    {
        if b[i] != word[i] {
            return false;
        }
        i = i + 1;
    }
    assert(b@ =~= word@);
    true
}

/// Reads a switch state word.
pub fn parse_switch_state(word: &str) -> (r: Option<RelaySwitchState>)
    ensures
        r == switch_word_spec(word.spec_bytes()),
{
    let on1: [u8; 1] = [49];
    let on2: [u8; 2] = [111, 110];
    let on3: [u8; 4] = [116, 114, 117, 101];
    let off1: [u8; 1] = [48];
    let off2: [u8; 3] = [111, 102, 102];
    let off3: [u8; 5] = [102, 97, 108, 115, 101];
    assert(on1@ =~= seq![49u8] && on2@ =~= seq![111u8, 110u8] && on3@ =~= seq![
        116u8,
        114u8,
        117u8,
        101u8,
    ]);
    assert(off1@ =~= seq![48u8] && off2@ =~= seq![111u8, 102u8, 102u8] && off3@ =~= seq![
        102u8,
        97u8,
        108u8,
        115u8,
        101u8,
    ]);
    if bytes_are(word, &on1) || bytes_are(word, &on2) || bytes_are(word, &on3) {
        Some(RelaySwitchState::On)
    } else if bytes_are(word, &off1) || bytes_are(word, &off2) || bytes_are(word, &off3) {
        Some(RelaySwitchState::Off)
    } else {
        None
    }
}


/// The bytes of each word.
pub open spec fn words_of(args: Seq<&str>) -> Seq<Seq<u8>> {
    args.map_values(|w: &str| w.spec_bytes())
}

/// Whether word `i` is there and is `word`.
pub open spec fn flag_spec(args: Seq<Seq<u8>>, i: int, word: Seq<u8>) -> bool {
    i < args.len() && args[i] == word
}

/// The number in word `i`, at most `max`.
pub open spec fn number_arg(args: Seq<Seq<u8>>, i: int, max: int) -> Result<int, CliError> {
    if i >= args.len() {
        Err(CliError::MissingArgument { position: i as usize })
    } else {
        match bounded_decimal(args[i], max) {
            Some(v) => Ok(v),
            None => Err(CliError::InvalidNumber { position: i as usize }),
        }
    }
}

/// The command that the words `args` make.
pub open spec fn command_spec(args: Seq<Seq<u8>>) -> Result<CliCommand, CliError> {
    let c = args[0];
    if args.len() == 0 {
        Err(CliError::UnknownCommand)
    } else if c == seq![97u8, 110u8, 97u8] {
        match number_arg(args, 1, 255) {
            Ok(v) => Ok(CliCommand::Analog { channel: v as u8, repeat: flag_spec(args, 2, loop_word()) }),
            Err(e) => Err(e),
        }
    } else if c == seq![114u8, 101u8, 108u8] {
        match number_arg(args, 1, 255) {
            Ok(v) => if args.len() > 2 {
                match switch_word_spec(args[2]) {
                    Some(st) => Ok(CliCommand::Relay { pin: v as u8, state: Some(st) }),
                    None => Err(CliError::InvalidSwitchState),
                }
            } else {
                Ok(CliCommand::Relay { pin: v as u8, state: None })
            },
            Err(e) => Err(e),
        }
    } else if c == seq![115u8, 111u8, 105u8, 108u8] {
        Ok(CliCommand::Soil { repeat: flag_spec(args, 1, loop_word()) })
    } else if c == seq![116u8, 101u8, 109u8, 112u8] {
        Ok(CliCommand::Temperature { repeat: flag_spec(args, 1, loop_word()) })
    } else if c == seq![112u8, 117u8, 109u8, 112u8] {
        if flag_spec(args, 2, grams_word()) {
            match number_arg(args, 1, 65535) {
                Ok(v) => Ok(CliCommand::PumpGrams { grams: v as u16 }),
                Err(e) => Err(e),
            }
        } else {
            match number_arg(args, 1, u64::MAX as int) {
                Ok(v) => Ok(CliCommand::PumpMillis { duration_ms: v as u64 }),
                Err(e) => Err(e),
            }
        }
    } else if c == seq![101u8, 120u8, 105u8, 116u8] {
        Ok(CliCommand::Exit)
    } else {
        Err(CliError::UnknownCommand)
    }
}

fn flag_at(args: &Vec<&str>, i: usize, word: &[u8]) -> (r: bool)
    ensures
        r == flag_spec(words_of(args@), i as int, word@),
{
    i < args.len() && bytes_are(args[i], word)
}

fn number_at(args: &Vec<&str>, i: usize, max: u64) -> (r: Result<u64, CliError>)
    ensures
        r matches Ok(v) ==> number_arg(words_of(args@), i as int, max as int) == Ok::<
            int,
            CliError,
        >(v as int) && v <= max,
        r matches Err(e) ==> number_arg(words_of(args@), i as int, max as int) == Err::<
            int,
            CliError,
        >(e),
{
    if i >= args.len() {
        return Err(CliError::MissingArgument { position: i });
    }
    match parse_decimal(args[i], max) {
        Some(v) => Ok(v),
        None => Err(CliError::InvalidNumber { position: i }),
    }
}

/// Reads a command from the words of a line.
pub fn parse_command(args: &Vec<&str>) -> (r: Result<CliCommand, CliError>)
    ensures
        r == command_spec(words_of(args@)),
{
    let ghost w = words_of(args@);
    let ana: [u8; 3] = [97, 110, 97];
    let rel: [u8; 3] = [114, 101, 108];
    let soil: [u8; 4] = [115, 111, 105, 108];
    let temp: [u8; 4] = [116, 101, 109, 112];
    let pump: [u8; 4] = [112, 117, 109, 112];
    let exit: [u8; 4] = [101, 120, 105, 116];
    let repeat: [u8; 4] = [108, 111, 111, 112];
    let grams: [u8; 5] = [103, 114, 97, 109, 115];
    assert(ana@ =~= seq![97u8, 110u8, 97u8] && rel@ =~= seq![114u8, 101u8, 108u8]);
    assert(soil@ =~= seq![115u8, 111u8, 105u8, 108u8] && temp@ =~= seq![116u8, 101u8, 109u8, 112u8]);
    assert(pump@ =~= seq![112u8, 117u8, 109u8, 112u8] && exit@ =~= seq![101u8, 120u8, 105u8, 116u8]);
    assert(repeat@ =~= loop_word() && grams@ =~= grams_word());
    if args.len() == 0 {
        return Err(CliError::UnknownCommand);
    }
    let c: &str = args[0];
    assert(c.spec_bytes() == w[0]);
    if bytes_are(c, &ana) {
        match number_at(args, 1, 255) {
            Ok(v) => Ok(CliCommand::Analog { channel: v as u8, repeat: flag_at(args, 2, &repeat) }),
            Err(e) => Err(e),
        }
    } else if bytes_are(c, &rel) {
        match number_at(args, 1, 255) {
            Ok(v) => {
                if args.len() > 2 {
                    assert(w[2] == args@[2].spec_bytes());
                    match parse_switch_state(args[2]) {
                        Some(st) => Ok(CliCommand::Relay { pin: v as u8, state: Some(st) }),
                        None => Err(CliError::InvalidSwitchState),
                    }
                } else {
                    Ok(CliCommand::Relay { pin: v as u8, state: None })
                }
            },
            Err(e) => Err(e),
        }
    } else if bytes_are(c, &soil) {
        Ok(CliCommand::Soil { repeat: flag_at(args, 1, &repeat) })
    } else if bytes_are(c, &temp) {
        Ok(CliCommand::Temperature { repeat: flag_at(args, 1, &repeat) })
    } else if bytes_are(c, &pump) {
        if flag_at(args, 2, &grams) {
            match number_at(args, 1, 65535) {
                Ok(v) => Ok(CliCommand::PumpGrams { grams: v as u16 }),
                Err(e) => Err(e),
            }
        } else {
            match number_at(args, 1, u64::MAX) {
                Ok(v) => Ok(CliCommand::PumpMillis { duration_ms: v }),
                Err(e) => Err(e),
            }
        }
    } else if bytes_are(c, &exit) {
        Ok(CliCommand::Exit)
    } else {
        Err(CliError::UnknownCommand)
    }
}

} // verus!
