//! Half-open ranges `[start, end)` and the rule that keeps them ordered.
//!
//! A range is ordered when its end does not lie below its start. Moving one
//! endpoint past the other drags the other along: raising the start raises
//! the end, lowering the end lowers the start.

use core::ops::Range;
use vstd::laws_cmp::obeys_cmp;
use vstd::prelude::*;
use vstd::std_specs::cmp::{OrdSpec, PartialOrdSpec};

verus! {

/// The smaller of two values; the first where neither is smaller.
pub open spec fn lesser<T: Ord>(a: T, b: T) -> T {
    if b.cmp_spec(&a) is Less {
        b
    } else {
        a
    }
}

/// The larger of two values; the second where neither is larger.
pub open spec fn greater<T: Ord>(a: T, b: T) -> T {
    if b.cmp_spec(&a) is Less {
        a
    } else {
        b
    }
}

/// A range is ordered when its end is not below its start. An ordered range
/// may be empty.
pub open spec fn ordered<T: Ord>(range: Range<T>) -> bool {
    !(range.end.cmp_spec(&range.start) is Less)
}

/// Pulls the start of a range down to its end where it lies above it. The
/// end stays as it is.
pub fn update_start<T>(range: &mut Range<T>) where T: Ord + Copy
    ensures
        final(range).end == old(range).end,
        T::obeys_cmp_spec() ==> final(range).start == lesser(old(range).start, old(range).end),
        obeys_cmp::<T>() ==> ordered(*final(range)),
{
    proof {
        if obeys_cmp::<T>() {
            reveal(vstd::laws_cmp::obeys_cmp_ord);
            lemma_not_below_itself(range.end);
        }
    }
    range.start = range.start.min(range.end)
}

/// Pushes the end of a range up to its start where it lies below it. The
/// start stays as it is.
pub fn update_end<T>(range: &mut Range<T>) where T: Ord + Copy
    ensures
        final(range).start == old(range).start,
        T::obeys_cmp_spec() ==> final(range).end == greater(old(range).start, old(range).end),
        obeys_cmp::<T>() ==> ordered(*final(range)),
{
    proof {
        if obeys_cmp::<T>() {
            reveal(vstd::laws_cmp::obeys_cmp_ord);
            lemma_not_below_itself(range.start);
        }
    }
    range.end = range.start.max(range.end)
}

/// One edit of a range: a new value for one of its endpoints.
#[derive(Debug, PartialEq, Eq)]
pub enum Edit<T> {
    /// The lower bound is set to the value.
    Start(T),
    /// The upper bound is set to the value.
    End(T),
}

/// The range that an edit leaves: the edited endpoint has the new value, and
/// the other endpoint has moved just as far as order needs.
pub open spec fn edited<T: Ord>(range: Range<T>, edit: Edit<T>) -> Range<T> {
    match edit {
        Edit::Start(value) => Range { start: value, end: greater(value, range.end) },
        Edit::End(value) => Range { start: lesser(range.start, value), end: value },
    }
}

/// The range that a sequence of edits leaves, the first edit applied first.
pub open spec fn edited_all<T: Ord>(range: Range<T>, edits: Seq<Edit<T>>) -> Range<T>
    decreases edits.len(),
{
    if edits.len() == 0 {
        range
    } else {
        edited(edited_all(range, edits.drop_last()), edits.last())
    }
}

/// Sets the start of a range, and raises the end to it if the end would lie
/// below.
pub fn set_start<T>(range: &mut Range<T>, value: T) where T: Ord + Copy
    ensures
        final(range).start == value,
        T::obeys_cmp_spec() ==> *final(range) == edited(*old(range), Edit::Start(value)),
        obeys_cmp::<T>() ==> ordered(*final(range)),
{
    range.start = value;
    update_end(range);
}

/// Sets the end of a range, and lowers the start to it if the start would lie
/// above.
pub fn set_end<T>(range: &mut Range<T>, value: T) where T: Ord + Copy
    ensures
        final(range).end == value,
        T::obeys_cmp_spec() ==> *final(range) == edited(*old(range), Edit::End(value)),
        obeys_cmp::<T>() ==> ordered(*final(range)),
{
    range.end = value;
    update_start(range);
}

/// Applies one edit to a range.
pub fn apply<T>(range: &mut Range<T>, edit: Edit<T>) where T: Ord + Copy
    ensures
        T::obeys_cmp_spec() ==> *final(range) == edited(*old(range), edit),
        obeys_cmp::<T>() ==> ordered(*final(range)),
{
    match edit {
        Edit::Start(value) => set_start(range, value),
        Edit::End(value) => set_end(range, value),
    }
}

/// No value is below itself.
proof fn lemma_not_below_itself<T: Ord>(value: T)
    requires
        obeys_cmp::<T>(),
    ensures
        !(value.cmp_spec(&value) is Less),
{
    reveal(vstd::laws_cmp::obeys_cmp_ord);
    reveal(vstd::laws_cmp::obeys_partial_cmp_spec_properties);
    let forth = value.partial_cmp_spec(&value);
    assert(forth == Some(value.cmp_spec(&value)));
}

/// One edit leaves a range ordered, whatever the range was before.
pub proof fn lemma_edit_orders<T: Ord>(range: Range<T>, edit: Edit<T>)
    requires
        obeys_cmp::<T>(),
    ensures
        ordered(edited(range, edit)),
{
    match edit {
        Edit::Start(value) => lemma_not_below_itself(value),
        Edit::End(value) => lemma_not_below_itself(value),
    }
}

/// After any sequence of edits the range is ordered. With no edit at all the
/// range is what it was, so it is ordered if it was ordered before.
pub proof fn lemma_edits_keep_order<T: Ord>(range: Range<T>, edits: Seq<Edit<T>>)
    requires
        obeys_cmp::<T>(),
        ordered(range) || edits.len() > 0,
    ensures
        ordered(edited_all(range, edits)),
{
    if edits.len() > 0 {
        lemma_edit_orders(edited_all(range, edits.drop_last()), edits.last());
    }
}

/// On 8-bit bounds, ordered means that the start is at most the end.
pub proof fn lemma_ordered_u8(range: Range<u8>)
    ensures
        ordered(range) <==> range.start <= range.end,
        obeys_cmp::<u8>(),
{
    broadcast use vstd::laws_cmp::group_laws_cmp;

}

/// On 16-bit bounds, ordered means that the start is at most the end.
pub proof fn lemma_ordered_u16(range: Range<u16>)
    ensures
        ordered(range) <==> range.start <= range.end,
        obeys_cmp::<u16>(),
{
    broadcast use vstd::laws_cmp::group_laws_cmp;

}

} // verus!
