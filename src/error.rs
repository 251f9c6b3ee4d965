use vstd::prelude::*;

verus! {

/// Why a candidate number was rejected. Each stage of validation has its own variant.
#[derive(Debug, Clone, Copy, PartialEq, Eq, Structural)]
pub enum PeselError {
    /// The text holds a character that is not a decimal digit.
    NonDigitCharacter,
    /// Fewer than eleven digits.
    TooShort,
    /// More than eleven digits.
    TooLong,
    /// The month field encodes no month.
    InvalidMonth,
    /// The day field is out of range for the encoded month.
    InvalidDay,
    /// The control digit does not match the weighted sum of the first ten digits.
    ChecksumMismatch,
}

impl PeselError {
    /// A human-readable description of the error, in Polish.
    pub fn message(&self) -> &'static str {
        match self {
            PeselError::NonDigitCharacter => "Podany pesel zawiera inne znaki niż cyfry",
            PeselError::TooShort => "Za mało znaków",
            PeselError::TooLong => "Za dużo znaków",
            PeselError::InvalidMonth => "Podany miesiąc jest nieprawidłowy",
            PeselError::InvalidDay => "Podany dzień jest nieprawidłowy",
            PeselError::ChecksumMismatch => "Suma kontrolna niepoprawna",
        }
    }
}

} // verus!
