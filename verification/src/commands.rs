//! The commands that a front end can give, and how buttons and keys name
//! them.

use crate::status::Status;
use crate::structs::{Lights, Mech, System};
use vstd::prelude::*;

verus! {

/// One operation of the controller, as a front end asks for it.
#[derive(Copy, Clone, PartialEq, Eq, Debug, Structural)]
pub enum Command {
    /// Spa service, rolled back at its end.
    AutoSpa,
    ToggleJets,
    ToggleFilterSchedule,
    ToggleQuickClean,
    ToggleMainValves,
    ToggleHeaterOn,
    ToggleHeatMode,
}

impl Command {
    /// The command behind a numbered button. Button 5 and every number
    /// outside 0 to 7 have none.
    pub open spec fn of_button(value: int) -> Option<Command> {
        if value == 0 {
            Some(Command::AutoSpa)
        } else if value == 1 {
            Some(Command::ToggleJets)
        } else if value == 2 {
            Some(Command::ToggleFilterSchedule)
        } else if value == 3 {
            Some(Command::ToggleQuickClean)
        } else if value == 4 {
            Some(Command::ToggleMainValves)
        } else if value == 6 {
            Some(Command::ToggleHeaterOn)
        } else if value == 7 {
            Some(Command::ToggleHeatMode)
        } else {
            None
        }
    }

    /// The command behind a key, in either case of the letter.
    pub open spec fn of_key(key: char) -> Option<Command> {
        if key == 'c' || key == 'C' {
            Some(Command::ToggleQuickClean)
        } else if key == 'r' || key == 'R' {
            Some(Command::ToggleFilterSchedule)
        } else if key == 'h' || key == 'H' {
            Some(Command::ToggleHeaterOn)
        } else if key == 'j' || key == 'J' {
            Some(Command::ToggleJets)
        } else if key == 'k' || key == 'K' {
            Some(Command::ToggleHeatMode)
        } else if key == 's' || key == 'S' {
            Some(Command::AutoSpa)
        } else if key == 'm' || key == 'M' {
            Some(Command::ToggleMainValves)
        } else {
            None
        }
    }

    /// The command behind a numbered button, if it has one.
    pub fn from_button(value: i32) -> (command: Option<Command>)
        ensures
            command == Command::of_button(value as int),
    {
        match value {
            0 => Some(Command::AutoSpa),
            1 => Some(Command::ToggleJets),
            2 => Some(Command::ToggleFilterSchedule),
            3 => Some(Command::ToggleQuickClean),
            4 => Some(Command::ToggleMainValves),
            6 => Some(Command::ToggleHeaterOn),
            7 => Some(Command::ToggleHeatMode),
            _ => None,
        }
    }

    /// The command behind a key, if it has one.
    pub fn from_key(key: char) -> (command: Option<Command>)
        ensures
            command == Command::of_key(key),
    {
        match key {
            'c' | 'C' => Some(Command::ToggleQuickClean),
            'r' | 'R' => Some(Command::ToggleFilterSchedule),
            'h' | 'H' => Some(Command::ToggleHeaterOn),
            'j' | 'J' => Some(Command::ToggleJets),
            'k' | 'K' => Some(Command::ToggleHeatMode),
            's' | 'S' => Some(Command::AutoSpa),
            'm' | 'M' => Some(Command::ToggleMainValves),
            _ => None,
        }
    }
}

/// What a command makes of a status.
pub open spec fn performed(s: Status, command: Command) -> Status {
    match command {
        Command::AutoSpa => s.auto_spa(None),
        Command::ToggleJets => s.toggle_jets(),
        Command::ToggleFilterSchedule => s.toggle_filter_schedule(),
        Command::ToggleQuickClean => s.toggle_quick_clean(),
        Command::ToggleMainValves => s.toggle_main_valves(),
        Command::ToggleHeaterOn => s.toggle_heater_on(),
        Command::ToggleHeatMode => s.toggle_heat_mode(),
    }
}

impl<M: Mech, L: Lights> System<M, L> {
    /// Runs the operation that `command` names.
    pub fn perform(&mut self, command: Command)
        ensures
            final(self)@ == performed(old(self)@, command),
            final(self).mech == old(self).mech,
            final(self).lights == old(self).lights,
    {
        match command {
            Command::AutoSpa => {
                self.auto_spa(None);
            },
            Command::ToggleJets => {
                self.toggle_jets();
            },
            Command::ToggleFilterSchedule => {
                self.toggle_filter_schedule();
            },
            Command::ToggleQuickClean => {
                self.toggle_quick_clean();
            },
            Command::ToggleMainValves => {
                self.toggle_main_valves();
            },
            Command::ToggleHeaterOn => {
                self.toggle_heater_on();
            },
            Command::ToggleHeatMode => {
                self.toggle_heat_mode();
            },
        }
    }
}

/// The value of bit `i`: two to the power `i`.
pub open spec fn bit_weight(i: nat) -> nat
    decreases i,
{
    if i == 0 {
        1
    } else {
        2 * bit_weight((i - 1) as nat)
    }
}

/// The signals packed into a number: signal `i` is bit `i`.
pub open spec fn light_bits(lights: Seq<bool>) -> nat
    decreases lights.len(),
{
    if lights.len() == 0 {
        0
    } else {
        light_bits(lights.drop_last()) + if lights.last() {
            bit_weight((lights.len() - 1) as nat)
        } else {
            0
        }
    }
}

/// Packed signals use no bit beyond their number.
pub proof fn light_bits_bound(lights: Seq<bool>)
    ensures
        light_bits(lights) < bit_weight(lights.len()),
    decreases lights.len(),
{
    if lights.len() > 0 {
        light_bits_bound(lights.drop_last());
    }
}

/// Bit weights grow with the bit, up to 65536 for bit 16.
proof fn bit_weight_grows(i: nat, j: nat)
    requires
        i <= j,
    ensures
        bit_weight(i) <= bit_weight(j),
        bit_weight(16) == 65536,
    decreases j,
{
    reveal_with_fuel(bit_weight, 17);
    if i < j {
        bit_weight_grows(i, (j - 1) as nat);
    }
}

/// Packs up to sixteen signals into a number: signal `i` is bit `i`.
pub fn pack_lights(lights: &[bool]) -> (bits: u16)
    requires
        lights@.len() <= 16,
    ensures
        bits == light_bits(lights@),
{
    let mut bits: u32 = 0;
    let mut weight: u32 = 1;
    let mut i: usize = 0;
    assert(lights@.take(0) =~= Seq::<bool>::empty());
    while i < lights.len()
        invariant
            i <= lights@.len() <= 16,
            weight == bit_weight(i as nat),
            bits == light_bits(lights@.take(i as int)),
            bits < weight,
        decreases lights@.len() - i,
    {
        proof {
            bit_weight_grows(i as nat + 1, 16);
            assert(lights@.take(i + 1).drop_last() =~= lights@.take(i as int));
        }
        if lights[i] {
            bits = bits + weight;
        }
        weight = 2 * weight;
        i += 1;
    }
    proof {
        bit_weight_grows(i as nat, 16);
        assert(lights@.take(i as int) =~= lights@);
    }
    bits as u16
}

} // verus!
