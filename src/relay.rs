//! Relay board: logical slots bound to output lines, switched active-low.
//!
//! The relay remembers the level it last drove on each bound line; whoever
//! owns the hardware applies that level to the physical line after each
//! change (see [`Relay::get_output_pin`]).
use vstd::prelude::*;
use crate::config::Configuration;

verus! {

/// The logical state of a relay.
#[derive(Clone, Copy, Debug, PartialEq, Eq, Structural)]
pub enum RelaySwitchState {
    On,
    Off,
}

/// One slot of the relay board.
#[derive(Clone, Copy, Debug, PartialEq, Eq, Structural)]
pub enum RelayLine {
    /// No physical line drives this slot.
    Unbound,
    /// Physical line `line`, currently driven high when `high` holds.
    Bound { line: u8, high: bool },
}

/// Why a relay slot could not be used.
#[derive(Clone, Copy, Debug, PartialEq, Eq, Structural)]
pub enum RelayError {
    /// Slot `pin` lies beyond the `slots` configured slots.
    OutOfRange { pin: u8, slots: usize },
    /// Slot `pin` has no physical line.
    Unconfigured { pin: u8 },
}

/// The relay closes when its line is low: `On` is driven low, `Off` high.
pub open spec fn level_of(state: RelaySwitchState) -> bool {
    state == RelaySwitchState::Off
}

/// The state that a line level stands for.
pub open spec fn state_of(high: bool) -> RelaySwitchState {
    if high {
        RelaySwitchState::Off
    } else {
        RelaySwitchState::On
    }
}

/// The slot that a configured line number gives: `-1`, or any number that
/// names no line, leaves the slot unbound; a bound slot starts high, so its
/// relay is open.
pub open spec fn slot_for(pin: i16) -> RelayLine {
    if 0 <= pin <= 255 {
        RelayLine::Bound { line: pin as u8, high: true }
    } else {
        RelayLine::Unbound
    }
}

/// The line and level of slot `pin`, or why it cannot be used.
pub open spec fn lookup(slots: Seq<RelayLine>, pin: u8) -> Result<(u8, bool), RelayError> {
    if pin >= slots.len() {
        Err(RelayError::OutOfRange { pin, slots: slots.len() as usize })
    } else {
        match slots[pin as int] {
            RelayLine::Unbound => Err(RelayError::Unconfigured { pin }),
            RelayLine::Bound { line, high } => Ok((line, high)),
        }
    }
}

/// Slot `pin` driven to level `high`, if it can be used.
pub open spec fn set_level(slots: Seq<RelayLine>, pin: u8, high: bool) -> Seq<RelayLine> {
    match lookup(slots, pin) {
        Ok((line, _)) => slots.update(pin as int, RelayLine::Bound { line, high }),
        Err(_) => slots,
    }
}

/// What `switch` does to the slots.
pub open spec fn switched(slots: Seq<RelayLine>, pin: u8, state: RelaySwitchState) -> Seq<RelayLine> {
    set_level(slots, pin, level_of(state))
}

/// What `get_state` reports.
pub open spec fn state_spec(slots: Seq<RelayLine>, pin: u8) -> Result<RelaySwitchState, RelayError> {
    match lookup(slots, pin) {
        Ok((_, high)) => Ok(state_of(high)),
        Err(e) => Err(e),
    }
}

/// The error part of a lookup.
pub open spec fn unit_result(r: Result<(u8, bool), RelayError>) -> Result<(), RelayError> {
    match r {
        Ok(_) => Ok(()),
        Err(e) => Err(e),
    }
}

pub struct Relay {
    relay_pins: Vec<RelayLine>,
}

impl View for Relay {
    type V = Seq<RelayLine>;

    closed spec fn view(&self) -> Seq<RelayLine> {
        self.relay_pins@
    }
}

impl Relay {
    /// One slot for each configured line, every bound line at its idle (high)
    /// level, so that all relays start open.
    pub fn new(config: &Configuration) -> (r: Result<Relay, RelayError>)
        ensures
            r matches Ok(relay) && relay@ == config.relay_settings.relay_gpio_pins@.map_values(
                |p: i16| slot_for(p),
            ),
    {
        let pins = &config.relay_settings.relay_gpio_pins;
        let mut slots: Vec<RelayLine> = Vec::new();
        let mut i: usize = 0;
        while i < pins.len()
            invariant
                i <= pins@.len(),
                slots@ == pins@.take(i as int).map_values(|p: i16| slot_for(p)),
            decreases pins@.len() - i,
        {
            let pin = pins[i];
            let slot = if 0 <= pin && pin <= 255 {
                RelayLine::Bound { line: pin as u8, high: true }
            } else {
                RelayLine::Unbound
            };
            slots.push(slot);
            i = i + 1;
            assert(slots@ =~= pins@.take(i as int).map_values(|p: i16| slot_for(p)));
        }
        assert(pins@.take(i as int) =~= pins@);
        Ok(Relay { relay_pins: slots })
    }

    /// Number of slots.
    pub fn len(&self) -> (r: usize)
        ensures
            r == self@.len(),
    {
        self.relay_pins.len()
    }

    /// Leaves slot `pin` without a line, as when its line could not be
    /// claimed. A slot beyond the board is ignored.
    pub fn unbind(&mut self, pin: u8)
        ensures
            pin < old(self)@.len() ==> final(self)@ == old(self)@.update(
                pin as int,
                RelayLine::Unbound,
            ),
            pin >= old(self)@.len() ==> final(self)@ == old(self)@,
    {
        if (pin as usize) < self.relay_pins.len() {
            self.relay_pins.set(pin as usize, RelayLine::Unbound);
        }
    }

    /// The physical line of slot `pin` and whether it is driven high.
    pub fn get_output_pin(&self, pin: u8) -> (r: Result<(u8, bool), RelayError>)
        ensures
            r == lookup(self@, pin),
    {
        if pin as usize >= self.relay_pins.len() {
            return Err(RelayError::OutOfRange { pin, slots: self.relay_pins.len() });
        }
        match self.relay_pins[pin as usize] {
            RelayLine::Unbound => Err(RelayError::Unconfigured { pin }),
            RelayLine::Bound { line, high } => Ok((line, high)),
        }
    }

    fn set_line_level(&mut self, pin: u8, high: bool) -> (r: Result<(), RelayError>)
        ensures
            r == unit_result(lookup(old(self)@, pin)),
            final(self)@ == set_level(old(self)@, pin, high),
    {
        match self.get_output_pin(pin) {
            Ok((line, _)) => {
                self.relay_pins.set(pin as usize, RelayLine::Bound { line, high });
                Ok(())
            },
            Err(e) => Err(e),
        }
    }

    /// Flips the level of slot `pin`.
    pub fn toggle(&mut self, pin: u8) -> (r: Result<(), RelayError>)
        ensures
            r == unit_result(lookup(old(self)@, pin)),
            final(self)@ == match lookup(old(self)@, pin) {
                Ok((_, high)) => set_level(old(self)@, pin, !high),
                Err(_) => old(self)@,
            },
    {
        match self.get_output_pin(pin) {
            Ok((_, high)) => self.set_line_level(pin, !high),
            Err(e) => Err(e),
        }
    }

    /// Drives slot `pin` to the level of `state`: low for `On`, high for
    /// `Off`.
    pub fn switch(&mut self, pin: u8, state: RelaySwitchState) -> (r: Result<(), RelayError>)
        ensures
            r == unit_result(lookup(old(self)@, pin)),
            final(self)@ == switched(old(self)@, pin, state),
    {
        let high = match state {
            RelaySwitchState::On => false,
            RelaySwitchState::Off => true,
        };
        self.set_line_level(pin, high)
    }

    /// The state that the level of slot `pin` stands for.
    pub fn get_state(&self, pin: u8) -> (r: Result<RelaySwitchState, RelayError>)
        ensures
            r == state_spec(self@, pin),
    {
        match self.get_output_pin(pin) {
            Ok((_, high)) => {
                if high {
                    Ok(RelaySwitchState::Off)
                } else {
                    Ok(RelaySwitchState::On)
                }
            },
            Err(e) => Err(e),
        }
    }
}

/// After a successful switch, the line carries the inverted level of the
/// state (low for `On`), reading the slot back gives that state, and no
/// other slot changes.
pub proof fn lemma_switch_then_read(slots: Seq<RelayLine>, pin: u8, state: RelaySwitchState)
    requires
        lookup(slots, pin) is Ok,
    ensures
        lookup(switched(slots, pin, state), pin) == Ok::<(u8, bool), RelayError>(
            (lookup(slots, pin)->Ok_0.0, state == RelaySwitchState::Off),
        ),
        state_spec(switched(slots, pin, state), pin) == Ok::<RelaySwitchState, RelayError>(state),
        forall|other: u8| other != pin ==> lookup(switched(slots, pin, state), other) == lookup(
            slots,
            other,
        ),
{
}

/// A fresh board has every bound line high, and every slot that has a line
/// reads `Off`.
pub proof fn lemma_fresh_relay_idle(pins: Seq<i16>, pin: u8)
    requires
        pin < pins.len(),
        0 <= pins[pin as int] <= 255,
    ensures
        lookup(pins.map_values(|p: i16| slot_for(p)), pin) == Ok::<(u8, bool), RelayError>(
            (pins[pin as int] as u8, true),
        ),
        state_spec(pins.map_values(|p: i16| slot_for(p)), pin) == Ok::<
            RelaySwitchState,
            RelayError,
        >(RelaySwitchState::Off),
{
}

} // verus!
