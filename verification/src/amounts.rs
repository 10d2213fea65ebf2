//! Money amounts typed by a person or a model: decimal text in whole units
//! with at most two decimals, read into cents.
use vstd::prelude::*;

use crate::report::first_of;
use crate::text::{ascii_digit, chars_of, is_digit, owned, trim, trimmed};
use crate::types::WorkspaceError;

verus! {

pub open spec fn all_digits(s: Seq<char>) -> bool {
    forall|i: int| 0 <= i < s.len() ==> is_digit(#[trigger] s[i])
}

/// The number the decimal digits spell.
pub open spec fn digits_value(s: Seq<char>) -> nat
    decreases s.len(),
{
    if s.len() == 0 {
        0
    } else {
        digits_value(s.drop_last()) * 10 + ((s.last() as u32) - 48) as nat
    }
}

/// The cents the decimals after the point spell: none, tenths, hundredths.
pub open spec fn cents_value(frac: Seq<char>) -> nat {
    if frac.len() == 0 {
        0
    } else if frac.len() == 1 {
        (((frac[0] as u32) - 48) * 10) as nat
    } else {
        (((frac[0] as u32) - 48) * 10 + ((frac[1] as u32) - 48)) as nat
    }
}

/// The digits before the first point (all of them when there is none).
pub open spec fn whole_part(t: Seq<char>) -> Seq<char> {
    if first_of(t, '.') < 0 {
        t
    } else {
        t.take(first_of(t, '.'))
    }
}

/// The digits after the first point (nothing when there is none).
pub open spec fn fraction_part(t: Seq<char>) -> Seq<char> {
    if first_of(t, '.') < 0 {
        Seq::empty()
    } else {
        t.skip(first_of(t, '.') + 1)
    }
}

/// The cents a trimmed amount text states: one or more digits, then
/// optionally a point and at most two more digits. No sign, no grouping,
/// no currency.
pub open spec fn amount_value(text: Seq<char>) -> Option<nat> {
    let t = trimmed(text);
    let whole = whole_part(t);
    let frac = fraction_part(t);
    if whole.len() > 0 && all_digits(whole) && frac.len() <= 2 && all_digits(frac) {
        Some(digits_value(whole) * 100 + cents_value(frac))
    } else {
        None
    }
}

pub proof fn lemma_digits_prefix(s: Seq<char>, i: int)
    requires
        0 <= i <= s.len(),
        all_digits(s),
    ensures
        digits_value(s.take(i)) <= digits_value(s),
    decreases s.len() - i,
{
    if i < s.len() {
        lemma_digits_prefix(s, i + 1);
        assert(s.take(i + 1).drop_last() =~= s.take(i));
        assert(is_digit(s[i]));
    } else {
        assert(s.take(i) =~= s);
    }
}

proof fn lemma_first_bound(s: Seq<char>, c: char)
    ensures
        -1 <= first_of(s, c) < s.len(),
        first_of(s, c) >= 0 ==> s[first_of(s, c)] == c,
    decreases s.len(),
{
    if s.len() > 0 {
        lemma_first_bound(s.drop_last(), c);
        let p = first_of(s.drop_last(), c);
        if p >= 0 {
            assert(s.drop_last()[p] == s[p]);
        }
    }
}

/// The message an unreadable amount is refused with.
pub const AMOUNT_FORMAT: &'static str = "amount must be a number like 1234.56";

/// Reads an amount into cents; refuses text that is not a plain decimal
/// with at most two decimals, and amounts past `u64` cents.
pub fn parse_amount_cents(text: &str) -> (r: Result<u64, WorkspaceError>)
    ensures
        match amount_value(text@) {
            Some(v) => if v <= u64::MAX {
                r == Ok::<u64, WorkspaceError>(v as u64)
            } else {
                r matches Err(WorkspaceError::Invalid(m)) && m@ == AMOUNT_FORMAT@
            },
            None => r matches Err(WorkspaceError::Invalid(m)) && m@ == AMOUNT_FORMAT@,
        },
{
    let t = trim(&chars_of(text));
    let ghost ts = t@;
    let mut point: usize = t.len();
    let mut found = false;
    let mut i: usize = 0;
    while i < t.len()
        invariant
            i <= t@.len(),
            found ==> point < i && first_of(t@.take(i as int), '.') == point,
            !found ==> first_of(t@.take(i as int), '.') == -1 && point == t@.len(),
        decreases t@.len() - i,
    {
        assert(t@.take(i + 1).drop_last() =~= t@.take(i as int));
        if !found && t[i] == '.' {
            found = true;
            point = i;
        }
        i += 1;
    }
    assert(t@.take(i as int) =~= t@);
    let ghost whole = whole_part(ts);
    let ghost frac = fraction_part(ts);
    assert(whole =~= ts.take(point as int));
    assert(frac =~= (if found { ts.skip(point + 1) } else { Seq::<char>::empty() }));
    let frac_start: usize = if found { point + 1 } else { t.len() };
    assert(frac =~= ts.subrange(frac_start as int, ts.len() as int));
    if point == 0 || t.len() - frac_start > 2 {
        return Err(WorkspaceError::Invalid(owned(AMOUNT_FORMAT)));
    }
    let mut k: usize = frac_start;
    while k < t.len()
        invariant
            frac_start <= k <= t@.len(),
            frac =~= ts.subrange(frac_start as int, ts.len() as int),
            ts == t@,
            ts == trimmed(text@),
            frac == fraction_part(ts),
            forall|j: int| 0 <= j < k - frac_start ==> is_digit(#[trigger] frac[j]),
        decreases t@.len() - k,
    {
        if !ascii_digit(t[k]) {
            assert(!is_digit(frac[k - frac_start]));
            return Err(WorkspaceError::Invalid(owned(AMOUNT_FORMAT)));
        }
        k += 1;
    }
    let mut value: u64 = 0;
    let mut j: usize = 0;
    while j < point
        invariant
            j <= point <= t@.len(),
            whole =~= ts.take(point as int),
            ts == t@,
            ts == trimmed(text@),
            whole == whole_part(ts),
            value == digits_value(whole.take(j as int)),
            all_digits(whole.take(j as int)),
        decreases point - j,
    {
        assert(whole.take(j + 1).drop_last() =~= whole.take(j as int));
        let c = t[j];
        if !ascii_digit(c) {
            assert(!is_digit(whole[j as int]));
            return Err(WorkspaceError::Invalid(owned(AMOUNT_FORMAT)));
        }
        let d = (c as u32 - 48) as u64;
        assert(whole.take(j + 1).last() == c);
        assert(all_digits(whole.take(j + 1))) by {
            assert forall|x: int| 0 <= x < j + 1 implies is_digit(#[trigger] whole.take(j + 1)[x]) by {
                if x < j {
                    assert(whole.take(j + 1)[x] == whole.take(j as int)[x]);
                }
            }
        }
        let next = if value <= (u64::MAX - d) / 10 {
            Some(value * 10 + d)
        } else {
            None
        };
        match next {
            Some(n) => {
                value = n;
            },
            None => {
                proof {
                    if all_digits(whole) {
                        lemma_digits_prefix(whole, j + 1);
                    }
                }
                return Err(WorkspaceError::Invalid(owned(AMOUNT_FORMAT)));
            },
        }
        j += 1;
    }
    assert(whole.take(point as int) =~= whole);
    let n = t.len();
    let cents: u64 = if frac_start == n {
        0
    } else if frac_start + 1 == n {
        (t[frac_start] as u32 - 48) as u64 * 10
    } else {
        (t[frac_start] as u32 - 48) as u64 * 10 + (t[frac_start + 1] as u32 - 48) as u64
    };
    assert(cents == cents_value(frac));
    if value > (u64::MAX - cents) / 100 {
        return Err(WorkspaceError::Invalid(owned(AMOUNT_FORMAT)));
    }
    Ok(value * 100 + cents)
}

} // verus!
