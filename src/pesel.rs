use vstd::prelude::*;

use crate::digit_vec::{all_digit_chars, digits_of, DigitVec};
use crate::error::PeselError;

verus! {

/// The century prefixes of the month field, in the order in which they are tried.
/// The prefix at index `k` marks the century starting at `1800 + 100 * k`.
pub open spec fn month_prefix_seq() -> Seq<u32> {
    seq![8, 0, 2, 4, 6]
}

/// The weights of the first ten digits in the checksum.
pub open spec fn weight_seq() -> Seq<u32> {
    seq![1, 3, 7, 9, 1, 3, 7, 9, 1, 3]
}

/// Whether the month field's tens digit `t` falls under prefix `p` (it is `p` or `p + 1`).
pub open spec fn matches_prefix(t: u32, p: u32) -> bool {
    t == p || t == p + 1
}

/// The index of the first prefix, from index `k` on, that `t` falls under; 5 if none.
pub open spec fn band_from(t: u32, k: nat) -> nat
    decreases 5 - k,
{
    if k >= 5 {
        5
    } else if matches_prefix(t, month_prefix_seq()[k as int]) {
        k
    } else {
        band_from(t, k + 1)
    }
}

/// The century band of the month field's tens digit `t`: the index of the first matching prefix.
pub open spec fn band(t: u32) -> nat {
    band_from(t, 0)
}

/// The true tens digit of the month, once the century prefix is taken off; 0 where none matched.
pub open spec fn month_tens(t: u32) -> int {
    if band(t) < 5 {
        t - month_prefix_seq()[band(t) as int]
    } else {
        0
    }
}

/// The month that the month field `t u` encodes; 0 where no prefix matched.
pub open spec fn decoded_month(t: u32, u: u32) -> int {
    if band(t) < 5 {
        month_tens(t) * 10 + u
    } else {
        0
    }
}

/// Whether the month field `t u` is plausible: it is not `00`, and its true tens digit
/// is not 1 with a units digit above 2.
pub open spec fn month_field_ok(t: u32, u: u32) -> bool {
    !(month_tens(t) == 1 && u > 2) && !(t == 0 && u == 0)
}

/// The number of days of `month`; February has 29 in a leap year. A month number
/// outside `1..=12` is bounded by 31 alone.
pub open spec fn days_in_month(month: int, leap: bool) -> int {
    if month == 2 {
        if leap {
            29
        } else {
            28
        }
    } else if month == 4 || month == 6 || month == 9 || month == 11 {
        30
    } else {
        31
    }
}

/// The two-digit number written by digits `a b`.
pub open spec fn two_digit(a: u32, b: u32) -> int {
    a * 10 + b
}

/// Whether the two-digit year `y0 y1` counts as a leap year: it alone is divisible by 4,
/// whatever the century.
pub open spec fn leap_by_two_digits(y0: u32, y1: u32) -> bool {
    two_digit(y0, y1) % 4 == 0
}

/// Whether the day field `d0 d1` is a day of the month encoded by `t u`, in the leap
/// state that the two-digit year `y0 y1` gives.
pub open spec fn day_field_ok(y0: u32, y1: u32, t: u32, u: u32, d0: u32, d1: u32) -> bool {
    let day = two_digit(d0, d1);
    1 <= day <= days_in_month(decoded_month(t, u), leap_by_two_digits(y0, y1))
}

/// The weighted sum of the first `n` digits of `d`.
pub open spec fn weighted_sum_upto(d: Seq<u32>, n: nat) -> int
    decreases n,
{
    if n == 0 {
        0
    } else {
        weighted_sum_upto(d, (n - 1) as nat) + d[n - 1] * weight_seq()[n - 1]
    }
}

/// The checksum of the first ten digits: their weighted sum, modulo 10.
pub open spec fn checksum(d: Seq<u32>) -> int {
    weighted_sum_upto(d, 10) % 10
}

/// Whether the control digit (the eleventh) equals the checksum `s` or `10 - s`.
pub open spec fn checksum_ok(d: Seq<u32>) -> bool {
    d[10] == checksum(d) || d[10] == 10 - checksum(d)
}

/// Whether every element of `d` is a decimal digit.
pub open spec fn all_digits(d: Seq<u32>) -> bool {
    forall|i: int| 0 <= i < d.len() ==> #[trigger] d[i] <= 9
}

/// The outcome of validating the digit sequence `d`: length, then month, then day,
/// then checksum; the first failing stage gives the error.
pub open spec fn validation(d: Seq<u32>) -> Result<(), PeselError> {
    if d.len() < 11 {
        Err(PeselError::TooShort)
    } else if d.len() > 11 {
        Err(PeselError::TooLong)
    } else if !month_field_ok(d[2], d[3]) {
        Err(PeselError::InvalidMonth)
    } else if !day_field_ok(d[0], d[1], d[2], d[3], d[4], d[5]) {
        Err(PeselError::InvalidDay)
    } else if !checksum_ok(d) {
        Err(PeselError::ChecksumMismatch)
    } else {
        Ok(())
    }
}

/// The outcome of building a record from the digits `d`: the digits themselves, or the error.
pub open spec fn record_outcome(d: Seq<u32>) -> Result<Seq<u32>, PeselError> {
    match validation(d) {
        Ok(_) => Ok(d),
        Err(e) => Err(e),
    }
}

/// The outcome of reading the text `s` as a PESEL number: first as digits, then as a record.
pub open spec fn pesel_outcome(s: Seq<char>) -> Result<Seq<u32>, PeselError> {
    if !all_digit_chars(s) {
        Err(PeselError::NonDigitCharacter)
    } else {
        record_outcome(digits_of(s))
    }
}

/// The birth year that `d` encodes: 1800, plus 100 per century band, plus the two-digit year.
pub open spec fn birth_year(d: Seq<u32>) -> int {
    1800 + 100 * band(d[2]) + two_digit(d[0], d[1])
}

/// The birth month that `d` encodes.
pub open spec fn birth_month(d: Seq<u32>) -> int {
    decoded_month(d[2], d[3])
}

/// The birth day that `d` encodes.
pub open spec fn birth_day(d: Seq<u32>) -> int {
    two_digit(d[4], d[5])
}

/// The sex that `d` encodes: by the parity of the tenth digit.
pub open spec fn gender_of(d: Seq<u32>) -> PersonGender {
    if d[9] % 2 == 0 {
        PersonGender::Female
    } else {
        PersonGender::Male
    }
}

/// The character of the decimal digit `x`.
pub open spec fn digit_char(x: u32) -> char {
    if x == 0 {
        '0'
    } else if x == 1 {
        '1'
    } else if x == 2 {
        '2'
    } else if x == 3 {
        '3'
    } else if x == 4 {
        '4'
    } else if x == 5 {
        '5'
    } else if x == 6 {
        '6'
    } else if x == 7 {
        '7'
    } else if x == 8 {
        '8'
    } else {
        '9'
    }
}

/// The text of the digits `d`, one character each.
pub open spec fn digits_text(d: Seq<u32>) -> Seq<char> {
    d.map_values(|x: u32| digit_char(x))
}

/// The sex of a person, as the number encodes it.
#[derive(Debug, Clone, Copy, PartialEq, Eq, Structural)]
pub enum PersonGender {
    Male,
    Female,
}

/// The value of the digits `s` read as a decimal number, most significant first.
pub open spec fn number_value(s: Seq<u32>) -> nat
    decreases s.len(),
{
    if s.len() == 0 {
        0
    } else {
        number_value(s.drop_last()) * 10 + s.last() as nat
    }
}

/// Ten to the power `n`.
pub open spec fn pow10(n: nat) -> nat
    decreases n,
{
    if n == 0 {
        1
    } else {
        10 * pow10((n - 1) as nat)
    }
}

/// Powers of ten grow with the exponent.
proof fn lemma_pow10_monotonic(a: nat, b: nat)
    requires
        a <= b,
    ensures
        pow10(a) <= pow10(b),
    decreases b,
{
    if a < b {
        lemma_pow10_monotonic(a, (b - 1) as nat);
    }
}

/// Two digits read as a number give the two-digit value.
proof fn lemma_two_digit_value(s: Seq<u32>)
    requires
        s.len() == 2,
    ensures
        number_value(s) == two_digit(s[0], s[1]),
{
    let first = s.drop_last();
    assert(first.drop_last() =~= Seq::<u32>::empty());
    assert(number_value(first) == number_value(first.drop_last()) * 10 + first.last() as nat);
    assert(first.last() == s[0]);
}

/// Reads the digits `slice` as a decimal number, most significant first.
fn slice_to_num(slice: &[u32]) -> (r: u32)
    requires
        slice@.len() <= 9,
        all_digits(slice@),
    ensures
        r == number_value(slice@),
{
    let digit_amount = slice.len();
    let mut number: u32 = 0;
    let mut i: usize = 0;
    while i < digit_amount
        invariant
            digit_amount == slice@.len() <= 9,
            all_digits(slice@),
            i <= digit_amount,
            number == number_value(slice@.subrange(0, i as int)),
            number < pow10(i as nat),
        decreases digit_amount - i,
    {
        let digit = slice[i];
        proof {
            lemma_pow10_monotonic((i + 1) as nat, 9);
            assert(pow10(9) == 1_000_000_000) by {
                reveal_with_fuel(pow10, 10);
            }
            assert(number * 10 + digit < pow10((i + 1) as nat)) by (nonlinear_arith)
                requires
                    number < pow10(i as nat),
                    digit <= 9,
                    pow10((i + 1) as nat) == 10 * pow10(i as nat),
            ;
            let next = slice@.subrange(0, i + 1);
            assert(next.drop_last() =~= slice@.subrange(0, i as int));
        }
        number = number * 10 + digit;
        i = i + 1;
    }
    proof {
        assert(slice@.subrange(0, digit_amount as int) =~= slice@);
    }
    number
}

/// A PESEL number that has passed every check, with its decoded birth date.
#[derive(Debug)]
pub struct Pesel {
    value: DigitVec,
    year: u32,
    month: u32,
    day: u32,
}

impl View for Pesel {
    type V = Seq<u32>;

    /// The eleven digits of the number.
    closed spec fn view(&self) -> Seq<u32> {
        self.value@
    }
}

/// The one-character text of the decimal digit `x`.
fn digit_str(x: u32) -> (r: &'static str)
    requires
        x <= 9,
    ensures
        r@ == seq![digit_char(x)],
{
    proof {
        reveal_strlit("0");
        reveal_strlit("1");
        reveal_strlit("2");
        reveal_strlit("3");
        reveal_strlit("4");
        reveal_strlit("5");
        reveal_strlit("6");
        reveal_strlit("7");
        reveal_strlit("8");
        reveal_strlit("9");
    }
    match x {
        0 => "0",
        1 => "1",
        2 => "2",
        3 => "3",
        4 => "4",
        5 => "5",
        6 => "6",
        7 => "7",
        8 => "8",
        _ => "9",
    }
}

/// Validates `digits` (length, month, day, then checksum) and, where every check passes,
/// decodes the birth date into a record that keeps the digits.
pub fn build_record(digits: DigitVec) -> (r: Result<Pesel, PeselError>)
    ensures
        r matches Ok(p) ==> record_outcome(digits@) == Ok::<Seq<u32>, PeselError>(p@),
        r matches Err(e) ==> record_outcome(digits@) == Err::<Seq<u32>, PeselError>(e),
{
    let d = digits.get();
    match Pesel::check_correctness(d) {
        Ok(()) => {},
        Err(e) => {
            return Err(e);
        },
    }
    let day_digits = vstd::slice::slice_subrange(d, 4, 6);
    proof {
        lemma_two_digit_value(day_digits@);
    }
    let year = Pesel::slice_to_year(vstd::slice::slice_subrange(d, 0, 2), d[2]);
    let month = Pesel::slice_to_month(vstd::slice::slice_subrange(d, 2, 4));
    let day = slice_to_num(day_digits);
    Ok(Pesel { value: digits, year, month, day })
}

impl Pesel {
    #[verifier::type_invariant]
    closed spec fn inv(self) -> bool {
        &&& all_digits(self.value@)
        &&& validation(self.value@) is Ok
        &&& self.year == birth_year(self.value@)
        &&& self.month == birth_month(self.value@)
        &&& self.day == birth_day(self.value@)
    }

    /// The century prefixes of the month field, in the order in which they are tried.
    fn month_prefixes() -> (r: [u32; 5])
        ensures
            r@ == month_prefix_seq(),
    {
        let r = [8, 0, 2, 4, 6];
        assert(r@ =~= month_prefix_seq());
        r
    }

    /// The checksum weights of the first ten digits.
    fn weights() -> (r: [u32; 10])
        ensures
            r@ == weight_seq(),
            forall|j: int| 0 <= j < 10 ==> #[trigger] r@[j] <= 9,
    {
        let r = [1, 3, 7, 9, 1, 3, 7, 9, 1, 3];
        assert(r@ =~= weight_seq());
        r
    }

    /// The index of the century prefix that the month's tens digit falls under; 5 if none.
    fn find_prefix(month_digit: u32) -> (r: usize)
        ensures
            r == band(month_digit),
            r <= 5,
            r < 5 ==> matches_prefix(month_digit, month_prefix_seq()[r as int]),
    {
        let prefixes = Pesel::month_prefixes();
        let mut k: usize = 0;
        while k < 5
            invariant
                prefixes@ == month_prefix_seq(),
                k <= 5,
                band(month_digit) == band_from(month_digit, k as nat),
            decreases 5 - k,
        {
            let prefix = prefixes[k];
            if month_digit == prefix || month_digit == prefix + 1 {
                return k;
            }
            k = k + 1;
        }
        5
    }

    /// Whether the month field `month_digits` is plausible.
    fn correct_month(month_digits: &[u32]) -> (r: bool)
        requires
            month_digits@.len() == 2,
            all_digits(month_digits@),
        ensures
            r == month_field_ok(month_digits@[0], month_digits@[1]),
    {
        let prefixes = Pesel::month_prefixes();
        let k = Pesel::find_prefix(month_digits[0]);
        let mut first_month_digit: u32 = 0;
        if k < 5 {
            first_month_digit = month_digits[0] - prefixes[k];
        }
        if first_month_digit == 1 && month_digits[1] > 2 {
            return false;
        }
        if month_digits[0] == 0 && month_digits[1] == 0 {
            return false;
        }
        true
    }

    /// The month that the month field `month_digits` encodes; 0 where no prefix matched.
    fn slice_to_month(month_digits: &[u32]) -> (r: u32)
        requires
            month_digits@.len() == 2,
            all_digits(month_digits@),
        ensures
            r == decoded_month(month_digits@[0], month_digits@[1]),
    {
        let prefixes = Pesel::month_prefixes();
        let k = Pesel::find_prefix(month_digits[0]);
        if k < 5 {
            (month_digits[0] - prefixes[k]) * 10 + month_digits[1]
        } else {
            0
        }
    }

    /// The full birth year: 1800, plus 100 per century band of `month_digit`, plus the
    /// two-digit year `year_digits`.
    fn slice_to_year(year_digits: &[u32], month_digit: u32) -> (r: u32)
        requires
            year_digits@.len() == 2,
            all_digits(year_digits@),
        ensures
            r == 1800 + 100 * band(month_digit) + two_digit(year_digits@[0], year_digits@[1]),
    {
        let k = Pesel::find_prefix(month_digit);
        1800 + 100 * (k as u32) + year_digits[0] * 10 + year_digits[1]
    }

    /// The number of days of `month`, given February's.
    fn days_in_month(month: u32, february_days: u32) -> (r: u32)
        requires
            february_days == 28 || february_days == 29,
        ensures
            r == days_in_month(month as int, february_days == 29),
    {
        match month {
            2 => february_days,
            4 | 6 | 9 | 11 => 30,
            _ => 31,
        }
    }

    /// Whether the day field `day_digits` is a day of the encoded month, with February's
    /// length taken from the two-digit year alone.
    fn correct_day(year_digits: &[u32], month_digits: &[u32], day_digits: &[u32]) -> (r: bool)
        requires
            year_digits@.len() == 2,
            month_digits@.len() == 2,
            day_digits@.len() == 2,
            all_digits(year_digits@),
            all_digits(month_digits@),
            all_digits(day_digits@),
        ensures
            r == day_field_ok(
                year_digits@[0],
                year_digits@[1],
                month_digits@[0],
                month_digits@[1],
                day_digits@[0],
                day_digits@[1],
            ),
    {
        let month = Pesel::slice_to_month(month_digits);
        let day = day_digits[0] * 10 + day_digits[1];
        if day < 1 || day > 31 {
            return false;
        }
        let mut february_days: u32 = 28;
        if (year_digits[0] * 10 + year_digits[1]) % 4 == 0 {
            february_days = 29;
        }
        day <= Pesel::days_in_month(month, february_days)
    }

    /// Checks, in order, the length, the month field, the day field and the checksum of
    /// `candidate`, stopping at the first that fails.
    fn check_correctness(candidate: &[u32]) -> (r: Result<(), PeselError>)
        requires
            all_digits(candidate@),
        ensures
            r == validation(candidate@),
    {
        let digit_count = candidate.len();
        if digit_count < 11 {
            return Err(PeselError::TooShort);
        }
        if digit_count > 11 {
            return Err(PeselError::TooLong);
        }
        let year_digits = vstd::slice::slice_subrange(candidate, 0, 2);
        let month_digits = vstd::slice::slice_subrange(candidate, 2, 4);
        let day_digits = vstd::slice::slice_subrange(candidate, 4, 6);
        if !Pesel::correct_month(month_digits) {
            return Err(PeselError::InvalidMonth);
        }
        if !Pesel::correct_day(year_digits, month_digits, day_digits) {
            return Err(PeselError::InvalidDay);
        }
        let multipliers = Pesel::weights();
        let mut sum: u32 = 0;
        let mut i: usize = 0;
        while i < 10
            invariant
                candidate@.len() == 11,
                all_digits(candidate@),
                multipliers@ == weight_seq(),
                forall|j: int| 0 <= j < 10 ==> #[trigger] multipliers@[j] <= 9,
                i <= 10,
                sum == weighted_sum_upto(candidate@, i as nat),
                sum <= 81 * i,
            decreases 10 - i,
        {
            let digit = candidate[i];
            let multiplier = multipliers[i];
            assert(digit * multiplier <= 81) by (nonlinear_arith)
                requires
                    digit <= 9,
                    multiplier <= 9,
            ;
            sum = sum + digit * multiplier;
            i = i + 1;
        }
        sum = sum % 10;
        let control_digit = candidate[10];
        if control_digit == 10 - sum || control_digit == sum {
            Ok(())
        } else {
            Err(PeselError::ChecksumMismatch)
        }
    }

    /// Reads `input` as a PESEL number: parses its digits, validates them and decodes
    /// the birth date. `input` is expected to be trimmed already.
    pub fn new(input: &str) -> (r: Result<Pesel, PeselError>)
        ensures
            r matches Ok(p) ==> pesel_outcome(input@) == Ok::<Seq<u32>, PeselError>(p@),
            r matches Err(e) ==> pesel_outcome(input@) == Err::<Seq<u32>, PeselError>(e),
    {
        match DigitVec::new(input) {
            Ok(digit_vec) => build_record(digit_vec),
            Err(e) => Err(e),
        }
    }

    /// The birth date as `[year, month, day]`.
    pub fn get_birthday(&self) -> (r: [u32; 3])
        ensures
            r@[0] == birth_year(self@),
            r@[1] == birth_month(self@),
            r@[2] == birth_day(self@),
    {
        proof {
            use_type_invariant(self);
        }
        [self.year, self.month, self.day]
    }

    /// The sex that the number encodes.
    pub fn get_gender(&self) -> (r: PersonGender)
        ensures
            r == gender_of(self@),
    {
        proof {
            use_type_invariant(self);
        }
        let digits = self.value.get();
        if digits[9] % 2 == 0 {
            PersonGender::Female
        } else {
            PersonGender::Male
        }
    }

    /// The eleven digits as text.
    pub fn to_string(&self) -> (r: String)
        ensures
            r@ == digits_text(self@),
    {
        let digits = self.value.get();
        let mut pesel_fmt = String::new();
        let mut i: usize = 0;
        while i < digits.len()
            invariant
                digits@ == self@,
                all_digits(digits@),
                i <= digits@.len(),
                pesel_fmt@ == digits_text(digits@.subrange(0, i as int)),
            decreases digits@.len() - i,
        {
            pesel_fmt.append(digit_str(digits[i]));
            proof {
                assert(digits_text(digits@.subrange(0, i + 1)) =~= digits_text(
                    digits@.subrange(0, i as int),
                ).push(digit_char(digits@[i as int])));
            }
            i = i + 1;
        }
        proof {
            assert(digits@.subrange(0, i as int) =~= digits@);
        }
        pesel_fmt
    }
}

} // verus!
