//! The state that one cycle asks of one light.

use crate::config::Data;
use crate::sample::{fits, rand_range_u16, rand_range_u8};
use vstd::prelude::*;

verus! {

/// One desired light state: on, a colour, how long the light takes to reach
/// it, and how long the cycle that sent it lasts. Both times are in ticks.
#[derive(Clone, Copy, Debug, PartialEq, Eq, Structural)]
pub struct LightCommand {
    pub on: bool,
    pub red: u8,
    pub green: u8,
    pub blue: u8,
    pub transition_time: u16,
    pub cycle_delay: u16,
}

/// The transition that goes with a cycle delay: the whole delay when fading,
/// none otherwise. A fade never outlasts its cycle.
pub open spec fn transition_for(fade: bool, delay: u16) -> u16 {
    if fade {
        delay
    } else {
        0
    }
}

/// The command made of a sampled delay and a sampled colour.
pub open spec fn command_of(fade: bool, delay: u16, red: u8, green: u8, blue: u8) -> LightCommand {
    LightCommand {
        on: true,
        red,
        green,
        blue,
        transition_time: transition_for(fade, delay),
        cycle_delay: delay,
    }
}

/// What holds of every command sampled from `data` for a cycle of the given
/// delay: the light is switched on, each channel fits its range, the command
/// carries the cycle's delay, and the transition follows from the delay and
/// the fade flag.
pub open spec fn command_fits(data: Data, delay: u16, command: LightCommand) -> bool {
    &&& command.on
    &&& fits(data.r.start as int, data.r.end as int, command.red as int)
    &&& fits(data.g.start as int, data.g.end as int, command.green as int)
    &&& fits(data.b.start as int, data.b.end as int, command.blue as int)
    &&& command.cycle_delay == delay
    &&& command.transition_time == transition_for(data.fade, delay)
}

impl LightCommand {
    /// The command for a sampled delay and a sampled colour.
    pub fn new(fade: bool, delay: u16, red: u8, green: u8, blue: u8) -> (command: LightCommand)
        ensures
            command == command_of(fade, delay, red, green, blue),
    {
        let transition_time: u16 = if fade {
            delay
        } else {
            0
        };
        LightCommand { on: true, red, green, blue, transition_time, cycle_delay: delay }
    }
}

/// Draws the delay of a cycle from the timing range.
pub fn draw_delay(source: &mut random::Xorshift128Plus, data: &Data) -> (delay: u16)
    ensures
        fits(data.time.start as int, data.time.end as int, delay as int),
{
    rand_range_u16(source, &data.time)
}

/// Draws a colour, red first, then green, then blue, and makes the command
/// for a cycle of the given delay.
pub fn draw_command(source: &mut random::Xorshift128Plus, data: &Data, delay: u16) -> (command:
    LightCommand)
    ensures
        command_fits(*data, delay, command),
{
    let red: u8 = rand_range_u8(source, &data.r);
    let green: u8 = rand_range_u8(source, &data.g);
    let blue: u8 = rand_range_u8(source, &data.b);
    LightCommand::new(data.fade, delay, red, green, blue)
}

} // verus!
