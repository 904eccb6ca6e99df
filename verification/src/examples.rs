//! Resolving the example a user asked to run.
//!
//! The launcher lists the example programs, reads one line, trims it, and
//! hands the trimmed bytes here.  An empty selection means the first
//! example; a selection that reads as a number names a position in the
//! list; anything else names an example by name.

use vstd::prelude::*;

use crate::bytes::bytes_eq;

verus! {

/// The decision for a selection string.
#[derive(Clone, Copy, Debug, PartialEq, Eq, Structural)]
pub enum Selection {
    /// Run the example at this position of the list.
    Run { index: usize },
    /// The selection reads as a number, but no example has that position.
    UnknownIndex,
    /// The selection names no example.
    UnknownName,
}

/// An ASCII decimal digit.
pub open spec fn is_digit(b: u8) -> bool {
    48 <= b <= 57
}

/// Every byte is a digit.
pub open spec fn all_digits(s: Seq<u8>) -> bool {
    forall|i: int| 0 <= i < s.len() ==> is_digit(#[trigger] s[i])
}

/// The number the digits spell in decimal.
pub open spec fn digits_value(s: Seq<u8>) -> int
    decreases s.len(),
{
    if s.len() == 0 {
        0
    } else {
        digits_value(s.drop_last()) * 10 + (s.last() - 48)
    }
}

/// The digits of a numeral: everything after the single leading `+` sign,
/// if one is there.
pub open spec fn numeral_digits(s: Seq<u8>) -> Seq<u8> {
    if s.len() > 0 && s[0] == 43 {
        s.skip(1)
    } else {
        s
    }
}

/// Whether the selection reads as a position: at least one digit after an
/// optional `+` sign, nothing else, and a value a `usize` can hold — the
/// numerals the standard parsing of an unsigned integer accepts.
pub open spec fn reads_as_index(s: Seq<u8>) -> bool {
    &&& numeral_digits(s).len() > 0
    &&& all_digits(numeral_digits(s))
    &&& digits_value(numeral_digits(s)) <= usize::MAX
}

/// The position the selection reads as.
pub open spec fn index_value(s: Seq<u8>) -> int {
    digits_value(numeral_digits(s))
}

proof fn lemma_digits_value_nonneg(s: Seq<u8>)
    requires
        all_digits(s),
    ensures
        digits_value(s) >= 0,
    decreases s.len(),
{
    if s.len() > 0 {
        assert(all_digits(s.drop_last()));
        lemma_digits_value_nonneg(s.drop_last());
    }
}

/// A numeral is at least as large as any of its prefixes.
proof fn lemma_digits_value_prefix(s: Seq<u8>, k: int)
    requires
        all_digits(s),
        0 <= k <= s.len(),
    ensures
        digits_value(s.take(k)) <= digits_value(s),
    decreases s.len(),
{
    if k == s.len() {
        assert(s.take(k) =~= s);
    } else {
        assert(all_digits(s.drop_last()));
        assert(s.take(k) =~= s.drop_last().take(k));
        lemma_digits_value_prefix(s.drop_last(), k);
        lemma_digits_value_nonneg(s.drop_last());
    }
}

/// The position a selection string reads as, exactly as the standard
/// parsing of a `usize` would read it: digits after an optional `+`,
/// refused on any other byte or when the value does not fit.
pub fn parse_index(s: &Vec<u8>) -> (r: Option<usize>)
    ensures
        r matches Some(v) ==> reads_as_index(s@) && v == index_value(s@),
        r is None ==> !reads_as_index(s@),
{
    let ghost d = numeral_digits(s@);
    let mut start: usize = 0;
    if s.len() > 0 && s[0] == 43 {
        start = 1;
    }
    if s.len() == start {
        return None;
    }
    let mut value: usize = 0;
    let mut i: usize = start;
    while i < s.len()
        invariant
            d == numeral_digits(s@),
            start == (if s@.len() > 0 && s@[0] == 43 {
                1int
            } else {
                0int
            }),
            start <= i <= s@.len(),
            d.len() == s@.len() - start,
            forall|j: int| 0 <= j < d.len() ==> d[j] == s@[j + start],
            all_digits(d.take(i - start)),
            value == digits_value(d.take(i - start)),
        decreases s@.len() - i,
    {
        let b = s[i];
        if b < 48 || b > 57 {
            proof {
                assert(!is_digit(d[i - start]));
            }
            return None;
        }
        let digit = (b - 48) as usize;
        proof {
            assert(d.take(i - start + 1).drop_last() =~= d.take(i - start));
            assert(d.take(i - start + 1).last() == d[i - start]);
            assert(all_digits(d.take(i - start + 1)));
        }
        if value > (usize::MAX - digit) / 10 {
            proof {
                assert(digits_value(d.take(i - start + 1)) > usize::MAX);
                if all_digits(d) {
                    lemma_digits_value_prefix(d, i - start + 1);
                }
            }
            return None;
        }
        value = value * 10 + digit;
        i = i + 1;
    }
    proof {
        assert(d.take(i - start) =~= d);
    }
    Some(value)
}

/// Which example a trimmed selection string asks for.  An empty selection
/// asks for the first example.  A selection that reads as a number asks for
/// that position, and positions past the end of the list are refused.  Any
/// other selection asks for the first example with exactly that name, and
/// is refused when none has it.
pub fn resolve_selection(examples: &Vec<Vec<u8>>, selection: &Vec<u8>) -> (r: Selection)
    requires
        examples@.len() > 0,
    ensures
        selection@.len() == 0 ==> r == (Selection::Run { index: 0 }),
        selection@.len() > 0 && reads_as_index(selection@) ==> (if index_value(selection@)
            < examples@.len() {
            r == (Selection::Run { index: index_value(selection@) as usize })
        } else {
            r is UnknownIndex
        }),
        selection@.len() > 0 && !reads_as_index(selection@) ==> (if (exists|i: int|
            0 <= i < examples@.len() && (#[trigger] examples@[i])@ == selection@) {
            r matches Selection::Run { index } && index < examples@.len()
                && examples@[index as int]@ == selection@ && (forall|j: int|
                0 <= j < index ==> (#[trigger] examples@[j])@ != selection@)
        } else {
            r is UnknownName
        }),
{
    if selection.len() == 0 {
        return Selection::Run { index: 0 };
    }
    if let Some(v) = parse_index(selection) {
        if v < examples.len() {
            return Selection::Run { index: v };
        } else {
            return Selection::UnknownIndex;
        }
    }
    let mut i: usize = 0;
    while i < examples.len()
        invariant
            i <= examples@.len(),
            selection@.len() > 0,
            !reads_as_index(selection@),
            forall|j: int| 0 <= j < i ==> (#[trigger] examples@[j])@ != selection@,
        decreases examples@.len() - i,
    {
        if bytes_eq(&examples[i], selection) {
            return Selection::Run { index: i };
        }
        i = i + 1;
    }
    Selection::UnknownName
}

} // verus!
