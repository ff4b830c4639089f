//! Reading the amount of dirty memory from the kernel's memory statistics.
//!
//! The statistics are lines of text. The line that counts begins with the
//! label `Dirty:`, followed by blanks, a decimal number, blanks again and the
//! unit `kB`. Only the first line with that label is looked at.

use vstd::prelude::*;

verus! {

/// Bytes that one kilobyte of the statistics stands for.
pub const KILOBYTE: usize = 1024;

/// Number of bytes of the label.
pub const LABEL_LEN: usize = 6;

/// The label of the line that reports dirty memory: `Dirty:`.
pub open spec fn spec_label() -> Seq<u8> {
    seq![68u8, 105u8, 114u8, 116u8, 121u8, 58u8]
}

/// A space or a tab.
pub open spec fn spec_is_blank(b: u8) -> bool {
    b == 32 || b == 9
}

/// A decimal digit.
pub open spec fn spec_is_digit(b: u8) -> bool {
    48 <= b <= 57
}

/// Whether the label stands at `i`, at the start of a line.
pub open spec fn spec_labelled(text: Seq<u8>, i: int) -> bool {
    &&& 0 <= i
    &&& i + LABEL_LEN <= text.len()
    &&& (i == 0 || text[i - 1] == 10)
    &&& text.subrange(i, i + LABEL_LEN) == spec_label()
}

/// Whether `i` is the first place where the label stands at the start of a
/// line.
pub open spec fn spec_first_labelled(text: Seq<u8>, i: int) -> bool {
    &&& spec_labelled(text, i)
    &&& forall|j: int| 0 <= j < i ==> !spec_labelled(text, j)
}

/// The first place at or after `i` that holds no blank.
pub open spec fn spec_skip_blanks(text: Seq<u8>, i: int) -> int
    decreases text.len() - i,
{
    if 0 <= i < text.len() && spec_is_blank(text[i]) {
        spec_skip_blanks(text, i + 1)
    } else {
        i
    }
}

/// The first place at or after `i` that holds no digit.
pub open spec fn spec_skip_digits(text: Seq<u8>, i: int) -> int
    decreases text.len() - i,
{
    if 0 <= i < text.len() && spec_is_digit(text[i]) {
        spec_skip_digits(text, i + 1)
    } else {
        i
    }
}

/// The number that a run of decimal digits writes.
pub open spec fn spec_decimal(digits: Seq<u8>) -> nat
    decreases digits.len(),
{
    if digits.len() == 0 {
        0
    } else {
        spec_decimal(digits.drop_last()) * 10 + (digits.last() - 48) as nat
    }
}

/// Whether the unit `kB` stands at `i`.
pub open spec fn spec_unit_at(text: Seq<u8>, i: int) -> bool {
    0 <= i && i + 2 <= text.len() && text[i] == 107 && text[i + 1] == 66
}

/// The value of the field that begins at `start`: blanks, at least one
/// digit, blanks, the unit. `None` where the field is not of that form or
/// its number is more than a `usize` holds.
pub open spec fn spec_field_value(text: Seq<u8>, start: int) -> Option<usize> {
    let first = spec_skip_blanks(text, start);
    let end = spec_skip_digits(text, first);
    let unit = spec_skip_blanks(text, end);
    let value = spec_decimal(text.subrange(first, end));
    if first < end && value <= usize::MAX && spec_unit_at(text, unit) {
        Some(value as usize)
    } else {
        None
    }
}

/// The kilobytes of dirty memory that `text` reports: the value of the
/// field behind the first label, `None` where no line has the label or the
/// field is malformed.
pub open spec fn spec_dirty_kb(text: Seq<u8>) -> Option<usize> {
    if exists|i: int| spec_first_labelled(text, i) {
        spec_field_value(text, (choose|i: int| spec_first_labelled(text, i)) + LABEL_LEN)
    } else {
        None
    }
}

/// The bytes of `total` that are taken to have reached storage while
/// `dirty_kb` kilobytes are still dirty; undefined where more is dirty than
/// `total`.
pub open spec fn spec_estimated_flushed(total: usize, dirty_kb: usize) -> Option<usize> {
    if dirty_kb * KILOBYTE <= total {
        Some((total - dirty_kb * KILOBYTE) as usize)
    } else {
        None
    }
}

/// Whether the label stands at `i`, at the start of a line.
fn labelled_at(text: &[u8], i: usize) -> (found: bool)
    requires
        i <= text.len(),
    ensures
        found == spec_labelled(text@, i as int),
{
    if text.len() - i < LABEL_LEN {
        return false;
    }
    if i > 0 && text[i - 1] != 10 {
        return false;
    }
    let found = text[i] == 68 && text[i + 1] == 105 && text[i + 2] == 114 && text[i + 3] == 116 && text[i + 4]
        == 121 && text[i + 5] == 58;
    proof {
        let part = text@.subrange(i as int, i + LABEL_LEN);
        assert(part.len() == 6);
        assert(part[0] == text@[i as int]);
        assert(part[1] == text@[i + 1]);
        assert(part[2] == text@[i + 2]);
        assert(part[3] == text@[i + 3]);
        assert(part[4] == text@[i + 4]);
        assert(part[5] == text@[i + 5]);
        if found {
            assert(part =~= spec_label());
        }
    }
    found
}

/// The first place where the label stands at the start of a line, if there
/// is one.
pub fn find_dirty_line(text: &[u8]) -> (place: Option<usize>)
    ensures
        match place {
            Some(i) => spec_first_labelled(text@, i as int) && i + LABEL_LEN <= usize::MAX,
            None => forall|j: int| !spec_labelled(text@, j),
        },
{
    let mut i: usize = 0;
    while i < text.len()
        invariant
            i <= text.len(),
            forall|j: int| 0 <= j < i ==> !spec_labelled(text@, j),
        decreases text.len() - i,
    {
        if labelled_at(text, i) {
            return Some(i);
        }
        i += 1;
    }
    None
}

/// The first place at or after `i` that holds no blank.
fn skip_blanks(text: &[u8], i: usize) -> (end: usize)
    requires
        i <= text.len(),
    ensures
        end == spec_skip_blanks(text@, i as int),
        i <= end <= text.len(),
{
    let mut k: usize = i;
    while k < text.len() && (text[k] == 32 || text[k] == 9)
        invariant
            i <= k <= text.len(),
            spec_skip_blanks(text@, k as int) == spec_skip_blanks(text@, i as int),
        decreases text.len() - k,
    {
        k += 1;
    }
    k
}

/// Adding a digit to a run of digits does not make its number smaller.
proof fn lemma_decimal_step(text: Seq<u8>, first: int, k: int)
    requires
        0 <= first <= k < text.len(),
    ensures
        spec_decimal(text.subrange(first, k + 1)) == spec_decimal(text.subrange(first, k)) * 10 + (text[k]
            - 48) as nat,
{
    assert(text.subrange(first, k + 1).drop_last() =~= text.subrange(first, k));
}

/// Reads the run of digits that begins at `first`. Returns where it ends
/// and the number it writes, `None` where that is more than a `usize` holds.
fn read_digits(text: &[u8], first: usize) -> (r: (usize, Option<usize>))
    requires
        first <= text.len(),
    ensures
        r.0 == spec_skip_digits(text@, first as int),
        first <= r.0 <= text.len(),
        spec_decimal(text@.subrange(first as int, r.0 as int)) <= usize::MAX ==> r.1 == Some(
            spec_decimal(text@.subrange(first as int, r.0 as int)) as usize,
        ),
        spec_decimal(text@.subrange(first as int, r.0 as int)) > usize::MAX ==> r.1.is_none(),
{
    let mut k: usize = first;
    let mut value: Option<usize> = Some(0);
    while k < text.len() && 48 <= text[k] && text[k] <= 57
        invariant
            first <= k <= text.len(),
            spec_skip_digits(text@, k as int) == spec_skip_digits(text@, first as int),
            match value {
                Some(v) => v == spec_decimal(text@.subrange(first as int, k as int)),
                None => spec_decimal(text@.subrange(first as int, k as int)) > usize::MAX,
            },
        decreases text.len() - k,
    {
        proof {
            lemma_decimal_step(text@, first as int, k as int);
        }
        let digit: usize = (text[k] - 48) as usize;
        value = match value {
            Some(v) => match v.checked_mul(10) {
                Some(tens) => tens.checked_add(digit),
                None => None,
            },
            None => None,
        };
        k += 1;
    }
    (k, value)
}

/// The value of the field that begins at `start`: `Some` exactly when
/// blanks, at least one digit, blanks and the unit follow there, and the
/// digits write a number that fits.
pub fn parse_field(text: &[u8], start: usize) -> (value: Option<usize>)
    ensures
        value == spec_field_value(text@, start as int),
{
    if start > text.len() {
        return None;
    }
    let first = skip_blanks(text, start);
    let (end, number) = read_digits(text, first);
    let unit = skip_blanks(text, end);
    if first < end && text.len() - unit >= 2 && text[unit] == 107 && text[unit + 1] == 66 {
        number
    } else {
        None
    }
}

/// The kilobytes of dirty memory that the statistics in `text` report.
/// `Some` exactly when a line begins with the label and the first such line
/// gives a number that fits, followed by its unit.
pub fn parse_dirty_kb(text: &[u8]) -> (kb: Option<usize>)
    ensures
        kb == spec_dirty_kb(text@),
{
    match find_dirty_line(text) {
        Some(i) => {
            proof {
                let c = choose|c: int| spec_first_labelled(text@, c);
                assert(spec_labelled(text@, i as int));
                assert(c == i) by {
                    if c < i {
                        assert(!spec_labelled(text@, c));
                    }
                    if i < c {
                        assert(!spec_labelled(text@, i as int));
                    }
                }
            }
            parse_field(text, i + LABEL_LEN)
        },
        None => None,
    }
}

/// The estimate of how many of `total` bytes have reached storage while
/// `dirty_kb` kilobytes are dirty: `total` less the dirty bytes. `None`
/// exactly when more is dirty than `total`.
pub fn estimated_flushed(total: usize, dirty_kb: usize) -> (flushed: Option<usize>)
    ensures
        flushed == spec_estimated_flushed(total, dirty_kb),
{
    match dirty_kb.checked_mul(KILOBYTE) {
        Some(dirty) => total.checked_sub(dirty),
        None => None,
    }
}

} // verus!
