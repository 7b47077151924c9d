//! Drawing a value from a half-open range.
//!
//! A range `[start, end)` with `end <= start` is empty; a draw from it gives
//! `start` and takes nothing from the stream. Otherwise one raw number of the
//! range's own width is read, and the value is `start` plus the raw number
//! modulo the width of the range.

use crate::source::{read_u16, read_u8};
use core::ops::Range;
use vstd::prelude::*;

verus! {

/// The value that a raw number selects from `[start, end)`.
pub open spec fn sampled(start: int, end: int, raw: int) -> int {
    if end <= start {
        start
    } else {
        start + raw % (end - start)
    }
}

/// What holds of every value drawn from `[start, end)`: it is `start` where
/// the range is empty, and lies in the range otherwise.
pub open spec fn fits(start: int, end: int, value: int) -> bool {
    if end <= start {
        value == start
    } else {
        start <= value < end
    }
}

/// Every raw number selects a value that fits the range.
pub proof fn lemma_sampled_fits(start: int, end: int, raw: int)
    requires
        0 <= raw,
    ensures
        fits(start, end, sampled(start, end, raw)),
{
    if start < end {
        vstd::arithmetic::div_mod::lemma_mod_bound(raw, end - start);
    }
}

/// Every value that fits a range is selected by some raw number below the
/// width of the range, so a raw number as wide as the bounds reaches all of
/// the range.
pub proof fn lemma_fits_is_sampled(start: int, end: int, value: int)
    requires
        fits(start, end, value),
    ensures
        0 <= value - start,
        start < end ==> value - start < end - start,
        sampled(start, end, value - start) == value,
{
    if start < end {
        vstd::arithmetic::div_mod::lemma_small_mod((value - start) as nat, (end - start) as nat);
    }
}

/// The value that an 8-bit raw number selects from a range of 8-bit bounds.
pub fn sample_u8(raw: u8, range: &Range<u8>) -> (value: u8)
    ensures
        value == sampled(range.start as int, range.end as int, raw as int),
{
    if range.end <= range.start {
        range.start
    } else {
        let span: u8 = range.end - range.start;
        let offset: u8 = raw % span;
        range.start + offset
    }
}

/// The value that a 16-bit raw number selects from a range of 16-bit bounds.
pub fn sample_u16(raw: u16, range: &Range<u16>) -> (value: u16)
    ensures
        value == sampled(range.start as int, range.end as int, raw as int),
{
    if range.end <= range.start {
        range.start
    } else {
        let span: u16 = range.end - range.start;
        let offset: u16 = raw % span;
        range.start + offset
    }
}

/// Draws a value from a range of 8-bit bounds: the value that some raw number
/// selects. An empty range gives its start and leaves the stream untouched.
pub fn rand_range_u8(source: &mut random::Xorshift128Plus, range: &Range<u8>) -> (value: u8)
    ensures
        exists|raw: u8|
            value == #[trigger] sampled(range.start as int, range.end as int, raw as int),
        fits(range.start as int, range.end as int, value as int),
        range.end <= range.start ==> value == range.start && *final(source) == *old(source),
        range.start < range.end ==> range.start <= value < range.end,
{
    if range.end <= range.start {
        assert(range.start == sampled(range.start as int, range.end as int, 0u8 as int));
        range.start
    } else {
        let raw: u8 = read_u8(source);
        proof {
            lemma_sampled_fits(range.start as int, range.end as int, raw as int);
        }
        sample_u8(raw, range)
    }
}

/// Draws a value from a range of 16-bit bounds: the value that some raw
/// number selects. An empty range gives its start and leaves the stream
/// untouched.
pub fn rand_range_u16(source: &mut random::Xorshift128Plus, range: &Range<u16>) -> (value: u16)
    ensures
        exists|raw: u16|
            value == #[trigger] sampled(range.start as int, range.end as int, raw as int),
        fits(range.start as int, range.end as int, value as int),
        range.end <= range.start ==> value == range.start && *final(source) == *old(source),
        range.start < range.end ==> range.start <= value < range.end,
{
    if range.end <= range.start {
        assert(range.start == sampled(range.start as int, range.end as int, 0u16 as int));
        range.start
    } else {
        let raw: u16 = read_u16(source);
        proof {
            lemma_sampled_fits(range.start as int, range.end as int, raw as int);
        }
        sample_u16(raw, range)
    }
}

} // verus!
