use vstd::prelude::*;

use crate::error::PeselError;

verus! {

/// Whether `c` is one of the ASCII decimal digits `'0'..='9'`.
pub open spec fn is_digit_char(c: char) -> bool {
    48 <= (c as u32) <= 57
}

/// The value of a decimal digit character.
pub open spec fn char_value(c: char) -> u32 {
    ((c as u32) - 48) as u32
}

/// Whether every character of `s` is a decimal digit.
pub open spec fn all_digit_chars(s: Seq<char>) -> bool {
    forall|i: int| 0 <= i < s.len() ==> is_digit_char(#[trigger] s[i])
}

/// The digit values of the characters of `s`, in order.
pub open spec fn digits_of(s: Seq<char>) -> Seq<u32> {
    s.map_values(|c: char| char_value(c))
}

/// The digit value of `c`, or `None` where `c` is not a decimal digit.
fn digit_value(c: char) -> (r: Option<u32>)
    ensures
        r is Some <==> is_digit_char(c),
        r matches Some(v) ==> v == char_value(c) && v <= 9,
{
    let code = c as u32;
    if 48 <= code && code <= 57 {
        Some(code - 48)
    } else {
        None
    }
}

/// A sequence of decimal digits, each in `0..=9`.
#[derive(Debug)]
pub struct DigitVec(Vec<u32>);

impl View for DigitVec {
    type V = Seq<u32>;

    closed spec fn view(&self) -> Seq<u32> {
        self.0@
    }
}

impl DigitVec {
    #[verifier::type_invariant]
    closed spec fn inv(self) -> bool {
        forall|i: int| 0 <= i < self.0@.len() ==> #[trigger] self.0@[i] <= 9
    }

    /// Reads `candidate` as a sequence of decimal digits, one per character.
    /// Fails on the first character that is not a digit, returning no partial result.
    pub fn new(candidate: &str) -> (r: Result<DigitVec, PeselError>)
        ensures
            r is Err <==> !all_digit_chars(candidate@),
            r matches Err(e) ==> e == PeselError::NonDigitCharacter,
            r matches Ok(d) ==> d@ == digits_of(candidate@),
    {
        let n = candidate.unicode_len();
        let mut pesel_digits: Vec<u32> = Vec::new();
        let mut i: usize = 0;
        while i < n
            invariant
                n == candidate@.len(),
                i <= n,
                forall|j: int| 0 <= j < i ==> is_digit_char(#[trigger] candidate@[j]),
                pesel_digits@ == digits_of(candidate@.subrange(0, i as int)),
                forall|j: int| 0 <= j < pesel_digits@.len() ==> #[trigger] pesel_digits@[j] <= 9,
            decreases n - i,
        {
            let c = candidate.get_char(i);
            match digit_value(c) {
                Some(v) => {
                    pesel_digits.push(v);
                },
                None => {
                    return Err(PeselError::NonDigitCharacter);
                },
            }
            proof {
                assert(candidate@.subrange(0, i + 1) =~= candidate@.subrange(0, i as int).push(c));
            }
            i = i + 1;
        }
        proof {
            assert(candidate@.subrange(0, n as int) =~= candidate@);
        }
        Ok(DigitVec(pesel_digits))
    }

    /// The digits, in order.
    pub fn get(&self) -> (r: &[u32])
        ensures
            r@ == self@,
            forall|i: int| 0 <= i < r@.len() ==> #[trigger] r@[i] <= 9,
    {
        proof {
            use_type_invariant(self);
        }
        self.0.as_slice()
    }
}

} // verus!
