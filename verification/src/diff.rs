//! What changed between two versions of a text, for a host that keeps no
//! record of its edits: the one span that has to be replaced to turn the
//! older text into the newer one, as short as it can be.

use crate::point::PointUtf16;
use crate::sync::{edits_view, Edit, EditView};
use crate::text::{end_of, position_of};
use vstd::prelude::*;
use vstd::std_specs::iter::IteratorSpec;
use vstd::string::{StrSliceExecFns, StringExecFns};

verus! {

broadcast use vstd::string::group_string_axioms;

/// Whether the first `prefix` and the last `suffix` characters are what
/// two texts have in common at their ends: the texts agree on them, they
/// do not overlap in either text, the prefix is as long as can be, and the
/// suffix is as long as what follows the prefix allows.
pub open spec fn is_common(old: Seq<char>, new: Seq<char>, prefix: int, suffix: int) -> bool {
    &&& 0 <= prefix
    &&& 0 <= suffix
    &&& prefix + suffix <= old.len()
    &&& prefix + suffix <= new.len()
    &&& forall|i: int| 0 <= i < prefix ==> old[i] == new[i]
    &&& forall|i: int|
        old.len() - suffix <= i < old.len() ==> #[trigger] old[i] == new[i - old.len() + new.len()]
    &&& prefix == old.len() || prefix == new.len() || old[prefix] != new[prefix]
    &&& prefix + suffix == old.len() || prefix + suffix == new.len()
        || old[old.len() - suffix - 1] != new[new.len() - suffix - 1]
}

/// Whether a position can be written with two numbers of 32 bits.
pub open spec fn fits(position: (nat, nat)) -> bool {
    position.0 <= u32::MAX && position.1 <= u32::MAX
}

/// The position with the given numbers.
pub open spec fn point_at(position: (nat, nat)) -> PointUtf16 {
    PointUtf16 { row: position.0 as u32, column: position.1 as u32 }
}

/// The edit that replaces what lies between a common prefix and a common
/// suffix of two texts. `None` where one of its positions cannot be
/// written.
pub open spec fn edit_between(
    old: Seq<char>,
    new: Seq<char>,
    prefix: int,
    suffix: int,
) -> Option<EditView> {
    let start = end_of(old.take(prefix));
    let old_end = end_of(old.take(old.len() - suffix));
    let new_end = end_of(new.take(new.len() - suffix));
    if fits(start) && fits(old_end) && fits(new_end) {
        Some(
            EditView {
                old_start: point_at(start),
                old_end: point_at(old_end),
                new_start: point_at(start),
                new_end: point_at(new_end),
                new_text: new.subrange(prefix, new.len() - suffix),
            },
        )
    } else {
        None
    }
}

/// The edits that turn one text into another: none where the texts are
/// equal, else the one edit between their longest common prefix and the
/// longest common suffix of what follows it. `None` where a position of
/// that edit cannot be written.
pub open spec fn text_diff(old: Seq<char>, new: Seq<char>) -> Option<Seq<EditView>> {
    if old == new {
        Some(Seq::empty())
    } else {
        let (prefix, suffix) = choose|prefix: int, suffix: int|
            is_common(old, new, prefix, suffix);
        match edit_between(old, new, prefix, suffix) {
            Some(edit) => Some(seq![edit]),
            None => None,
        }
    }
}

/// Two texts have one longest common prefix, and one longest common
/// suffix of what follows it.
pub proof fn lemma_common_is_unique(
    old: Seq<char>,
    new: Seq<char>,
    prefix: int,
    suffix: int,
    other_prefix: int,
    other_suffix: int,
)
    requires
        is_common(old, new, prefix, suffix),
        is_common(old, new, other_prefix, other_suffix),
    ensures
        prefix == other_prefix,
        suffix == other_suffix,
{
    if prefix < other_prefix {
        assert(old[prefix] == new[prefix]);
    }
    if other_prefix < prefix {
        assert(old[other_prefix] == new[other_prefix]);
    }
    if suffix < other_suffix {
        assert(old[old.len() - suffix - 1] == new[new.len() - suffix - 1]);
    }
    if other_suffix < suffix {
        assert(old[old.len() - other_suffix - 1] == new[new.len() - other_suffix - 1]);
    }
}

/// Replacing in the older text what lies between the common prefix and
/// the common suffix by the new text of the edit gives the newer text.
pub proof fn lemma_edit_gives_new(old: Seq<char>, new: Seq<char>, prefix: int, suffix: int)
    requires
        is_common(old, new, prefix, suffix),
    ensures
        old.take(prefix) + new.subrange(prefix, new.len() - suffix) + old.skip(
            old.len() - suffix,
        ) == new,
        old == new <==> prefix == old.len() && prefix == new.len(),
{
    let rebuilt = old.take(prefix) + new.subrange(prefix, new.len() - suffix) + old.skip(
        old.len() - suffix,
    );
    assert(rebuilt.len() == new.len());
    assert forall|i: int| 0 <= i < new.len() implies rebuilt[i] == new[i] by {
        if i >= new.len() - suffix {
            let j = i - new.len() + old.len();
            assert(old[j] == new[j - old.len() + new.len()]);
        }
    }
    assert(rebuilt =~= new);
    if prefix == old.len() && prefix == new.len() {
        assert(old =~= new);
    }
    if old == new && prefix < old.len() {
        assert(prefix + suffix == old.len());
        assert(old[prefix] == new[prefix]);
    }
}

/// The characters of a text.
fn chars_of(text: &str) -> (chars: Vec<char>)
    ensures
        chars@ == text@,
{
    let mut chars: Vec<char> = Vec::new();
    let mut rest = text.chars();
    loop
        invariant
            chars@.len() <= text@.len(),
            rest.remaining() == text@.skip(chars@.len() as int),
            chars@ == text@.take(chars@.len() as int),
        ensures
            chars@ == text@,
        decreases text@.len() - chars@.len(),
    {
        match rest.next() {
            Some(c) => {
                proof {
                    let k = chars@.len() as int;
                    assert(text@.skip(k)[0] == text@[k]);
                    assert(text@.skip(k).drop_first() =~= text@.skip(k + 1));
                    assert(text@.take(k + 1) =~= text@.take(k).push(c));
                }
                chars.push(c);
            },
            None => {
                assert(text@.take(chars@.len() as int) =~= text@);
                break ;
            },
        }
    }
    chars
}

/// The position just after the first `count` of some characters. `None`
/// where it cannot be written.
fn position_after(chars: &Vec<char>, count: usize) -> (point: Option<PointUtf16>)
    requires
        count <= chars.len(),
    ensures
        match point {
            Some(point) => position_of(point) == end_of(chars@.take(count as int)),
            None => !fits(end_of(chars@.take(count as int))),
        },
{
    let mut row: u64 = 0;
    let mut column: u128 = 0;
    let mut i: usize = 0;
    assert(chars@.take(0) =~= Seq::<char>::empty());
    while i < count
        invariant
            i <= count <= chars.len(),
            end_of(chars@.take(i as int)) == (row as nat, column as nat),
            row <= i,
            column <= 2 * i,
        decreases count - i,
    {
        assert(chars@.take(i + 1).drop_last() =~= chars@.take(i as int));
        let c = chars[i];
        if c == '\n' {
            row += 1;
            column = 0;
        } else if (c as u32) < 0x10000 {
            column += 1;
        } else {
            column += 2;
        }
        i += 1;
    }
    if row <= u32::MAX as u64 && column <= u32::MAX as u128 {
        Some(PointUtf16 { row: row as u32, column: column as u32 })
    } else {
        None
    }
}

/// Works out what changed between two versions of a text.
pub fn diff(old: &str, new: &str) -> (edits: Option<Vec<Edit>>)
    ensures
        match edits {
            Some(edits) => text_diff(old@, new@) == Some(edits_view(edits@)),
            None => text_diff(old@, new@) is None,
        },
{
    let old_chars = chars_of(old);
    let new_chars = chars_of(new);
    let old_len = old_chars.len();
    let new_len = new_chars.len();
    let mut prefix: usize = 0;
    while prefix < old_len && prefix < new_len && old_chars[prefix] == new_chars[prefix]
        invariant
            prefix <= old_len == old_chars.len(),
            prefix <= new_len == new_chars.len(),
            forall|i: int| 0 <= i < prefix ==> old_chars@[i] == new_chars@[i],
        decreases old_len - prefix,
    {
        prefix += 1;
    }
    if prefix == old_len && prefix == new_len {
        assert(old@ =~= new@);
        let edits: Vec<Edit> = Vec::new();
        assert(edits_view(edits@) =~= Seq::<EditView>::empty());
        return Some(edits);
    }
    let mut suffix: usize = 0;
    while prefix + suffix < old_len && prefix + suffix < new_len
        && old_chars[old_len - suffix - 1] == new_chars[new_len - suffix - 1]
        invariant
            prefix + suffix <= old_len == old_chars.len(),
            prefix + suffix <= new_len == new_chars.len(),
            forall|i: int|
                old_len - suffix <= i < old_len ==> #[trigger] old_chars@[i]
                    == new_chars@[i - old_len + new_len],
        decreases old_len - prefix - suffix,
    {
        suffix += 1;
    }
    proof {
        assert(is_common(old@, new@, prefix as int, suffix as int));
        lemma_edit_gives_new(old@, new@, prefix as int, suffix as int);
        let (p, s) = choose|p: int, s: int| is_common(old@, new@, p, s);
        lemma_common_is_unique(old@, new@, prefix as int, suffix as int, p, s);
    }
    let start = match position_after(&old_chars, prefix) {
        Some(start) => start,
        None => { return None; },
    };
    let old_end = match position_after(&old_chars, old_len - suffix) {
        Some(old_end) => old_end,
        None => { return None; },
    };
    let new_end = match position_after(&new_chars, new_len - suffix) {
        Some(new_end) => new_end,
        None => { return None; },
    };
    let edit = Edit {
        old_start: start,
        old_end,
        new_start: start,
        new_end,
        new_text: String::from_str(new.substring_char(prefix, new_len - suffix)),
    };
    let mut edits: Vec<Edit> = Vec::new();
    edits.push(edit);
    assert(edits_view(edits@) =~= seq![edit@]);
    Some(edits)
}

} // verus!
