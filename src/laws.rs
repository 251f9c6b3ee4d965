use vstd::prelude::*;

use crate::digit_vec::{all_digit_chars, char_value, digits_of, is_digit_char};
use crate::error::PeselError;
use crate::pesel::{
    all_digits, band_from, birth_day, birth_month, checksum_ok, day_field_ok, digit_char,
    digits_text, month_field_ok, month_prefix_seq, pesel_outcome, record_outcome,
    weighted_sum_upto,
};

verus! {

/// A text that holds a character other than a decimal digit is rejected as such,
/// whatever else it holds.
pub proof fn law_non_digit_rejected(s: Seq<char>, i: int)
    requires
        0 <= i < s.len(),
        !is_digit_char(s[i]),
    ensures
        pesel_outcome(s) == Err::<Seq<u32>, PeselError>(PeselError::NonDigitCharacter),
{
    assert(!all_digit_chars(s));
}

/// A digit sequence whose length is not eleven is rejected for its length, before its
/// date or checksum is looked at.
pub proof fn law_length_checked_first(d: Seq<u32>)
    requires
        d.len() != 11,
    ensures
        record_outcome(d) == Err::<Seq<u32>, PeselError>(
            if d.len() < 11 {
                PeselError::TooShort
            } else {
                PeselError::TooLong
            },
        ),
{
}

/// The weighted sum of the first `n` digits depends on those digits alone.
proof fn lemma_weighted_sum_prefix(a: Seq<u32>, b: Seq<u32>, n: nat)
    requires
        n <= a.len(),
        n <= b.len(),
        forall|i: int| 0 <= i < n ==> a[i] == b[i],
    ensures
        weighted_sum_upto(a, n) == weighted_sum_upto(b, n),
    decreases n,
{
    if n > 0 {
        lemma_weighted_sum_prefix(a, b, (n - 1) as nat);
    }
}

/// For ten leading digits with checksum `s`, both `s` and `10 - s` (where it is a digit)
/// pass as the control digit; the whole number is then accepted wherever its month and
/// day fields are valid.
pub proof fn law_checksum_accepts_both(prefix: Seq<u32>)
    requires
        prefix.len() == 10,
        all_digits(prefix),
    ensures
        ({
            let s = weighted_sum_upto(prefix, 10) % 10;
            let dates_ok = month_field_ok(prefix[2], prefix[3]) && day_field_ok(
                prefix[0],
                prefix[1],
                prefix[2],
                prefix[3],
                prefix[4],
                prefix[5],
            );
            &&& checksum_ok(prefix.push(s as u32))
            &&& s != 0 ==> checksum_ok(prefix.push((10 - s) as u32))
            &&& dates_ok ==> record_outcome(prefix.push(s as u32)) is Ok
            &&& dates_ok && s != 0 ==> record_outcome(prefix.push((10 - s) as u32)) is Ok
        }),
{
    let s = weighted_sum_upto(prefix, 10) % 10;
    let c1 = prefix.push(s as u32);
    let c2 = prefix.push((10 - s) as u32);
    lemma_weighted_sum_prefix(prefix, c1, 10);
    lemma_weighted_sum_prefix(prefix, c2, 10);
}

/// Every decimal digit character is written back as itself.
proof fn lemma_digit_char_round_trip(c: char)
    requires
        is_digit_char(c),
    ensures
        digit_char(char_value(c)) == c,
{
    assert('0' as u32 == 48);
    assert('9' as u32 == 57);
}

/// A text that is accepted as a PESEL number reads back, digit by digit, as the same text.
pub proof fn law_round_trip(s: Seq<char>)
    requires
        pesel_outcome(s) is Ok,
    ensures
        digits_text(pesel_outcome(s)->Ok_0) == s,
{
    assert(all_digit_chars(s));
    let d = digits_of(s);
    assert forall|i: int| 0 <= i < s.len() implies #[trigger] digits_text(d)[i] == s[i] by {
        lemma_digit_char_round_trip(s[i]);
    }
    assert(digits_text(d) =~= s);
}

/// With the two-digit year `00`, February 29th passes the month and day checks in every
/// one of the five century bands: leap years are judged by the two-digit year alone.
pub proof fn law_leap_day_ignores_century(d: Seq<u32>)
    requires
        d.len() == 11,
        all_digits(d),
        d[0] == 0,
        d[1] == 0,
        month_prefix_seq().contains(d[2]),
        d[3] == 2,
        d[4] == 2,
        d[5] == 9,
    ensures
        birth_month(d) == 2,
        birth_day(d) == 29,
        month_field_ok(d[2], d[3]),
        day_field_ok(d[0], d[1], d[2], d[3], d[4], d[5]),
        record_outcome(d) is Ok || record_outcome(d) == Err::<Seq<u32>, PeselError>(
            PeselError::ChecksumMismatch,
        ),
{
    reveal_with_fuel(band_from, 6);
    let k = choose|k: int| 0 <= k < 5 && month_prefix_seq()[k] == d[2];
    assert(0 <= k < 5 && month_prefix_seq()[k] == d[2]);
}

} // verus!
