//! Reading the process-status line of Linux: fields separated by single
//! spaces, and the decimal numbers in them.

use crate::text::texts;
use vstd::prelude::*;

verus! {

/// The fields of `s`, where every single space ends one field and starts
/// the next: a text with `n` spaces has `n + 1` fields, some of which may be
/// empty.
pub open spec fn space_fields(s: Seq<char>) -> Seq<Seq<char>>
    decreases s.len(),
{
    if s.len() == 0 {
        seq![Seq::empty()]
    } else {
        let before = space_fields(s.drop_last());
        if s.last() == ' ' {
            before.push(Seq::empty())
        } else {
            before.drop_last().push(before.last().push(s.last()))
        }
    }
}

/// Whether `c` is one of the digits `0` to `9`.
pub open spec fn is_digit(c: char) -> bool {
    '0' <= c && c <= '9'
}

/// The number that the digit `c` stands for.
pub open spec fn digit_value(c: char) -> nat {
    (c as u32 - '0' as u32) as nat
}

/// Whether `s` holds digits alone.
pub open spec fn all_digits(s: Seq<char>) -> bool {
    forall|i: int| 0 <= i < s.len() ==> is_digit(#[trigger] s[i])
}

/// The number that the digits of `s` write in base ten.
pub open spec fn digits_value(s: Seq<char>) -> nat
    decreases s.len(),
{
    if s.len() == 0 {
        0
    } else {
        digits_value(s.drop_last()) * 10 + digit_value(s.last())
    }
}

/// `s` without the plus sign that may stand in front of a number.
pub open spec fn unsigned_part(s: Seq<char>) -> Seq<char> {
    if s.len() > 0 && s[0] == '+' {
        s.drop_first()
    } else {
        s
    }
}

/// The number that `s` writes: one or more digits, with or without a plus
/// sign in front, that give a number of at most 64 bits. Any other text
/// writes none.
pub open spec fn parsed_u64(s: Seq<char>) -> Option<u64> {
    let digits = unsigned_part(s);
    if digits.len() > 0 && all_digits(digits) && digits_value(digits) <= u64::MAX {
        Some(digits_value(digits) as u64)
    } else {
        None
    }
}

/// More digits never write a smaller number.
pub proof fn lemma_digits_value_grows(s: Seq<char>, k: int)
    requires
        0 <= k <= s.len(),
    ensures
        digits_value(s.take(k)) <= digits_value(s),
    decreases s.len() - k,
{
    if k == s.len() {
        assert(s.take(k) =~= s);
    } else {
        lemma_digits_value_grows(s, k + 1);
        assert(s.take(k + 1).drop_last() =~= s.take(k));
    }
}

/// Splits `s` at every single space.
pub fn split_spaces(s: &str) -> (fields: Vec<String>)
    ensures
        texts(fields@) == space_fields(s@),
{
    let mut fields: Vec<String> = Vec::new();
    let mut field = String::new();
    assert(space_fields(s@.take(0)) =~= seq![Seq::<char>::empty()]);
    assert(texts(fields@).push(field@) =~= space_fields(s@.take(0)));
    for c in it: s.chars()
        invariant
            it.seq() == s@,
            texts(fields@).push(field@) == space_fields(s@.take(it.index() as int)),
    {
        proof {
            let next = s@.take(it.index() + 1);
            assert(next.drop_last() =~= s@.take(it.index() as int));
            assert(next.last() == c);
        }
        let ghost before = texts(fields@).push(field@);
        if c == ' ' {
            let mut ended = String::new();
            std::mem::swap(&mut field, &mut ended);
            fields.push(ended);
            assert(texts(fields@).push(field@) =~= before.push(Seq::empty()));
        } else {
            field.push(c);
            assert(texts(fields@).push(field@) =~= before.drop_last().push(
                before.last().push(c),
            ));
        }
    }
    assert(s@.take(s@.len() as int) =~= s@);
    let ghost before = texts(fields@).push(field@);
    fields.push(field);
    assert(texts(fields@) =~= before);
    fields
}

/// Reads `s` as a decimal number of at most 64 bits.
pub fn parse_u64(s: &str) -> (r: Option<u64>)
    ensures
        r == parsed_u64(s@),
{
    let mut value: u64 = 0;
    let ghost mut seen: int = 0;
    let mut any = false;
    let mut signed = false;
    let mut first = true;
    let ghost digits = unsigned_part(s@);
    for c in it: s.chars()
        invariant
            it.seq() == s@,
            digits == unsigned_part(s@),
            first == (it.index() == 0),
            any == (seen > 0),
            0 <= seen <= it.index(),
            signed ==> s@.len() > 0 && s@[0] == '+' && seen + 1 == it.index(),
            !signed && it.index() > 0 ==> s@[0] != '+' && seen == it.index(),
            !signed && it.index() == 0 ==> seen == 0,
            seen <= digits.len(),
            all_digits(digits.take(seen)),
            value == digits_value(digits.take(seen)),
    {
        let leading = first;
        first = false;
        if c == '+' && leading {
            signed = true;
        } else if '0' <= c && c <= '9' {
            let d: u64 = (c as u32 - '0' as u32) as u64;
            proof {
                assert(digits[seen] == c);
                assert(digits.take(seen + 1).drop_last() =~= digits.take(seen));
                assert(digits.take(seen + 1).last() == c);
                lemma_digits_value_grows(digits, seen + 1);
            }
            if value > (u64::MAX - d) / 10 {
                return None;
            }
            value = value * 10 + d;
            any = true;
            proof {
                seen = seen + 1;
            }
        } else {
            proof {
                assert(digits[seen] == c);
                assert(!is_digit(digits[seen]));
            }
            return None;
        }
    }
    proof {
        assert(digits.take(seen) =~= digits);
    }
    if any {
        Some(value)
    } else {
        None
    }
}

} // verus!
