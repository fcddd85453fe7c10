//! Positions in a text: which positions fall between two characters, and
//! the nearest such position for a position that does not.

use crate::point::PointUtf16;
use vstd::prelude::*;
use vstd::std_specs::iter::IteratorSpec;
use vstd::string::StrSliceExecFns;

verus! {

broadcast use vstd::string::group_string_axioms;

/// The number of UTF-16 code units that encode a character.
pub open spec fn utf16_len(c: char) -> nat {
    if (c as u32) < 0x10000 {
        1
    } else {
        2
    }
}

/// The position just after a text: the number of its line breaks, and the
/// width in UTF-16 code units of what follows the last of them.
pub open spec fn end_of(text: Seq<char>) -> (nat, nat)
    decreases text.len(),
{
    if text.len() == 0 {
        (0, 0)
    } else {
        let before = end_of(text.drop_last());
        if text.last() == '\n' {
            (before.0 + 1, 0)
        } else {
            (before.0, before.1 + utf16_len(text.last()))
        }
    }
}

/// Document order on positions of any size.
pub open spec fn position_le(a: (nat, nat), b: (nat, nat)) -> bool {
    a.0 < b.0 || (a.0 == b.0 && a.1 <= b.1)
}

/// A position as a pair of numbers.
pub open spec fn position_of(point: PointUtf16) -> (nat, nat) {
    (point.row as nat, point.column as nat)
}

/// Whether a position falls between two characters of a text, or at its
/// start or end.
pub open spec fn is_boundary(text: Seq<char>, point: PointUtf16) -> bool {
    exists|k: int| 0 <= k <= text.len() && #[trigger] end_of(text.take(k)) == position_of(point)
}

/// Whether `clipped` is the last boundary of a text that does not lie
/// after `point`.
pub open spec fn is_clipped(text: Seq<char>, point: PointUtf16, clipped: PointUtf16) -> bool {
    &&& is_boundary(text, clipped)
    &&& clipped.le(point)
    &&& forall|other: PointUtf16|
        is_boundary(text, other) && other.le(point) ==> #[trigger] other.le(clipped)
}

/// The last boundary of a text that does not lie after `point`: `point`
/// itself where it is a boundary; the end of its row where its column lies
/// beyond; the start of a character where it lies inside one; the end of
/// the text where it lies after it.
pub open spec fn clip_left(text: Seq<char>, point: PointUtf16) -> PointUtf16 {
    choose|clipped: PointUtf16| is_clipped(text, point, clipped)
}

/// Each character moves the position forward.
pub proof fn lemma_end_of_grows(text: Seq<char>, i: int, j: int)
    requires
        0 <= i <= j <= text.len(),
    ensures
        position_le(end_of(text.take(i)), end_of(text.take(j))),
        i < j ==> end_of(text.take(i)) != end_of(text.take(j)),
    decreases j - i,
{
    if i < j {
        lemma_end_of_grows(text, i, j - 1);
        assert(text.take(j).drop_last() =~= text.take(j - 1));
    }
}

/// No two positions are the last boundary before the same position.
pub proof fn lemma_clipped_is_unique(
    text: Seq<char>,
    point: PointUtf16,
    first: PointUtf16,
    second: PointUtf16,
)
    requires
        is_clipped(text, point, first),
        is_clipped(text, point, second),
    ensures
        first == second,
{
    assert(first.le(second));
    assert(second.le(first));
}

/// Clips a position to a text.
pub fn clip_point_utf16(text: &str, point: PointUtf16) -> (clipped: PointUtf16)
    ensures
        is_clipped(text@, point, clipped),
        clipped == clip_left(text@, point),
{
    let length = text.unicode_len();
    let mut best = PointUtf16 { row: 0, column: 0 };
    let mut row: u64 = 0;
    let mut column: u128 = 0;
    let mut chars = text.chars();
    let ghost mut k: int = 0;
    let ghost mut after = false;
    assert(text@.take(0) =~= Seq::<char>::empty());
    loop
        invariant_except_break
            !after,
        invariant
            0 <= k <= text@.len() == length,
            chars.remaining() == text@.skip(k),
            end_of(text@.take(k)) == (row as nat, column as nat),
            row <= k,
            column <= 2 * k,
            is_boundary(text@, best),
            best.le(point),
            forall|j: int, other: PointUtf16|
                0 <= j < k && #[trigger] end_of(text@.take(j)) == position_of(other)
                    ==> #[trigger] other.le(best),
            !after ==> position_le((row as nat, column as nat), position_of(point)),
        ensures
            after ==> !position_le(end_of(text@.take(k)), position_of(point)),
            !after ==> k == text@.len() && forall|other: PointUtf16|
                end_of(text@.take(k)) == position_of(other) ==> #[trigger] other.le(best),
        decreases text@.len() - k,
    {
        if column <= u32::MAX as u128 {
            proof {
                let reached = PointUtf16 { row: row as u32, column: column as u32 };
                assert forall|j: int, other: PointUtf16|
                    0 <= j < k && #[trigger] end_of(text@.take(j)) == position_of(
                        other,
                    ) implies #[trigger] other.le(reached) by {
                    lemma_end_of_grows(text@, j, k);
                }
            }
            best = PointUtf16 { row: row as u32, column: column as u32 };
        }
        match chars.next() {
            None => {
                break ;
            },
            Some(c) => {
                proof {
                    assert(text@.take(k + 1).drop_last() =~= text@.take(k));
                    k = k + 1;
                }
                if c == '\n' {
                    row += 1;
                    column = 0;
                } else if (c as u32) < 0x10000 {
                    column += 1;
                } else {
                    column += 2;
                }
                if row > point.row as u64 || (row == point.row as u64 && column
                    > point.column as u128) {
                    proof {
                        after = true;
                    }
                    break ;
                }
            },
        }
    }
    proof {
        assert forall|other: PointUtf16|
            is_boundary(text@, other) && other.le(point) implies #[trigger] other.le(best) by {
            let j = choose|j: int|
                0 <= j <= text@.len() && #[trigger] end_of(text@.take(j)) == position_of(other);
            if after && j >= k {
                lemma_end_of_grows(text@, k, j);
            }
        }
        lemma_clipped_is_unique(text@, point, best, clip_left(text@, point));
    }
    best
}

} // verus!
