//! The parameters of the show.

use crate::range::{lemma_ordered_u16, lemma_ordered_u8, ordered};
use core::ops::Range;
use vstd::prelude::*;

verus! {

/// The length of one tick in milliseconds. Cycle delays and transition times
/// are counted in ticks.
pub const TICK_MILLIS: u64 = 100;

/// The lowest bound that the timing controls offer, in ticks.
pub const TIME_FLOOR: u16 = 1;

/// The highest bound that the timing controls offer, in ticks.
pub const TIME_CEILING: u16 = 100;

/// How the active lights are grouped into tasks.
#[derive(Clone, Copy, Debug, PartialEq, Eq, Structural)]
pub enum SyncMode {
    /// Every active light has a task and a random stream of its own.
    Independent,
    /// One task drives all active lights on a common delay; each light still
    /// gets colours of its own.
    Time,
    /// One task draws once per cycle and applies the draw to every light.
    TimeAndColor,
}

/// The text that names a mode to the user.
pub open spec fn label_text(sync_mode: SyncMode) -> Seq<char> {
    match sync_mode {
        SyncMode::Independent => "none"@,
        SyncMode::Time => "time"@,
        SyncMode::TimeAndColor => "time & color"@,
    }
}

/// The name of a mode, as shown in the mode selector.
pub fn label(sync_mode: SyncMode) -> (text: &'static str)
    ensures
        text@ == label_text(sync_mode),
{
    match sync_mode {
        SyncMode::Independent => "none",
        SyncMode::Time => "time",
        SyncMode::TimeAndColor => "time & color",
    }
}

/// The parameters that every cycle samples from: a range for each colour
/// channel, a range for the cycle delay in ticks, and whether a light fades
/// into its colour over the delay.
#[derive(Debug, PartialEq, Eq)]
pub struct Data {
    pub r: Range<u8>,
    pub g: Range<u8>,
    pub b: Range<u8>,
    pub time: Range<u16>,
    pub fade: bool,
}

impl Data {
    /// The parameters that a session starts with: each channel over
    /// `[0, 255)`, delays over `[1, 10)` ticks, no fading.
    pub open spec fn initial() -> Data {
        Data {
            r: Range { start: 0u8, end: 255u8 },
            g: Range { start: 0u8, end: 255u8 },
            b: Range { start: 0u8, end: 255u8 },
            time: Range { start: 1u16, end: 10u16 },
            fade: false,
        }
    }

    /// In each of the four ranges the start is at most the end. The controls
    /// keep a draft in this state; sampling does not depend on it.
    pub open spec fn wf(&self) -> bool {
        &&& self.r.start <= self.r.end
        &&& self.g.start <= self.g.end
        &&& self.b.start <= self.b.end
        &&& self.time.start <= self.time.end
    }
}

/// The parameters are well formed just when each range is ordered, which is
/// what every edit of a range leaves.
pub proof fn lemma_wf_is_ordered(data: Data)
    ensures
        data.wf() <==> ordered(data.r) && ordered(data.g) && ordered(data.b) && ordered(
            data.time,
        ),
{
    lemma_ordered_u8(data.r);
    lemma_ordered_u8(data.g);
    lemma_ordered_u8(data.b);
    lemma_ordered_u16(data.time);
}

impl Default for Data {
    fn default() -> (data: Data)
        ensures
            data == Data::initial(),
            data.wf(),
    {
        Data { r: 0..255, g: 0..255, b: 0..255, time: 1..10, fade: false }
    }
}

impl Clone for Data {
    fn clone(&self) -> (copy: Data)
        ensures
            copy == *self,
    {
        Data {
            r: self.r.start..self.r.end,
            g: self.g.start..self.g.end,
            b: self.b.start..self.b.end,
            time: self.time.start..self.time.end,
            fade: self.fade,
        }
    }
}

} // verus!
